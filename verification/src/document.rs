//! Documents: the named fields of a resource, each name at most once.

use vstd::prelude::*;
use vstd::set_lib::lemma_subset_equality;
use vstd::std_specs::cmp::PartialEqSpecImpl;
use vstd::string::*;
use crate::keyed::{
    distinct_keys, keyed_map, lemma_keyed_dom, lemma_keyed_len, lemma_keyed_push,
    lemma_keyed_remove, lemma_keyed_update, lemma_keyed_value,
};
use crate::text::str_eq;

verus! {

/// A named field of a document, with its value as text.
#[derive(Debug, Clone, PartialEq, Eq)]
pub struct Field {
    pub name: String,
    pub value: String,
}

/// The name of a field, as the key by which a document finds it.
pub open spec fn field_name() -> spec_fn(Field) -> Seq<char> {
    |f: Field| f.name@
}

/// The value of a field.
pub open spec fn field_value() -> spec_fn(Field) -> Seq<char> {
    |f: Field| f.value@
}

/// The mapping from names to values that a list of fields stands for.
pub open spec fn field_map(s: Seq<Field>) -> Map<Seq<char>, Seq<char>> {
    keyed_map(s, field_name(), field_value())
}

/// No name occurs twice in the list.
pub open spec fn distinct_names(s: Seq<Field>) -> bool {
    distinct_keys(s, field_name())
}

/// The named fields of a resource. No name occurs twice. Two documents are
/// equal where they hold the same names with the same values, in whatever order.
#[derive(Debug)]
pub struct Document {
    fields: Vec<Field>,
}

impl View for Document {
    type V = Map<Seq<char>, Seq<char>>;

    closed spec fn view(&self) -> Map<Seq<char>, Seq<char>> {
        field_map(self.fields@)
    }
}

impl Clone for Document {
    fn clone(&self) -> (r: Document)
        ensures
            r@ == self@,
    {
        proof {
            use_type_invariant(self);
        }
        let mut fields: Vec<Field> = Vec::new();
        let mut i: usize = 0;
        while i < self.fields.len()
            invariant
                i <= self.fields@.len(),
                fields@ == self.fields@.subrange(0, i as int),
            decreases self.fields@.len() - i,
        {
            let field = &self.fields[i];
            fields.push(Field { name: field.name.clone(), value: field.value.clone() });
            i = i + 1;
        }
        assert(fields@ == self.fields@);
        Document { fields }
    }
}

impl PartialEq for Document {
    fn eq(&self, other: &Document) -> (r: bool) {
        proof {
            use_type_invariant(self);
            use_type_invariant(other);
            lemma_keyed_len(self.fields@, field_name(), field_value());
            lemma_keyed_len(other.fields@, field_name(), field_value());
            lemma_keyed_dom(self.fields@, field_name(), field_value());
            lemma_keyed_dom(other.fields@, field_name(), field_value());
        }
        if self.fields.len() != other.fields.len() {
            return false;
        }
        let mut i: usize = 0;
        while i < self.fields.len()
            invariant
                i <= self.fields@.len(),
                distinct_names(self.fields@),
                distinct_names(other.fields@),
                forall|k: int|
                    0 <= k < i ==> other@.dom().contains((#[trigger] self.fields@[k]).name@)
                        && other@[self.fields@[k].name@] == self.fields@[k].value@,
            decreases self.fields@.len() - i,
        {
            let field = &self.fields[i];
            proof {
                lemma_keyed_value(self.fields@, field_name(), field_value(), i as int);
                lemma_keyed_dom(other.fields@, field_name(), field_value());
            }
            match other.position(field.name.as_str()) {
                Some(j) => {
                    proof {
                        lemma_keyed_value(other.fields@, field_name(), field_value(), j as int);
                    }
                    if !str_eq(other.fields[j].value.as_str(), field.value.as_str()) {
                        return false;
                    }
                },
                None => {
                    return false;
                },
            }
            i = i + 1;
        }
        proof {
            assert forall|name: Seq<char>| self@.dom().contains(name) implies other@.dom().contains(
                name,
            ) && other@[name] == self@[name] by {
                let k = choose|k: int|
                    0 <= k < self.fields@.len() && field_name()(#[trigger] self.fields@[k]) == name;
                lemma_keyed_value(self.fields@, field_name(), field_value(), k);
            }
            lemma_subset_equality(self@.dom(), other@.dom());
            assert(self@ =~= other@);
        }
        true
    }
}

impl PartialEqSpecImpl for Document {
    open spec fn obeys_eq_spec() -> bool {
        true
    }

    open spec fn eq_spec(&self, other: &Document) -> bool {
        self@ == other@
    }
}

impl Eq for Document {

}

impl Document {
    #[verifier::type_invariant]
    spec fn well_formed(self) -> bool {
        distinct_names(self.fields@)
    }

    /// A document has finitely many names.
    pub proof fn lemma_finite(self)
        ensures
            self@.dom().finite(),
    {
        lemma_keyed_dom(self.fields@, field_name(), field_value());
    }

    /// The document without fields.
    pub fn new() -> (r: Document)
        ensures
            r@ == Map::<Seq<char>, Seq<char>>::empty(),
    {
        Document { fields: Vec::new() }
    }

    /// The position of the field called `name`.
    fn position(&self, name: &str) -> (r: Option<usize>)
        ensures
            match r {
                Some(i) => i < self.fields@.len() && self.fields@[i as int].name@ == name@,
                None => forall|i: int| 0 <= i < self.fields@.len() ==> self.fields@[i].name@ != name@,
            },
    {
        let mut i: usize = 0;
        while i < self.fields.len()
            invariant
                i <= self.fields@.len(),
                forall|j: int| 0 <= j < i ==> self.fields@[j].name@ != name@,
            decreases self.fields@.len() - i,
        {
            if str_eq(self.fields[i].name.as_str(), name) {
                return Some(i);
            }
            i = i + 1;
        }
        None
    }

    /// The number of fields.
    pub fn len(&self) -> (r: usize)
        ensures
            self@.dom().finite(),
            r == self@.dom().len(),
    {
        proof {
            use_type_invariant(self);
            lemma_keyed_len(self.fields@, field_name(), field_value());
        }
        self.fields.len()
    }

    /// Whether the document has a field called `name`.
    pub fn contains_key(&self, name: &str) -> (r: bool)
        ensures
            r == self@.dom().contains(name@),
    {
        proof {
            lemma_keyed_dom(self.fields@, field_name(), field_value());
        }
        self.position(name).is_some()
    }

    /// The value of the field called `name`, if there is one.
    pub fn get(&self, name: &str) -> (r: Option<&String>)
        ensures
            r is Some == self@.dom().contains(name@),
            r is Some ==> r->0@ == self@[name@],
    {
        proof {
            use_type_invariant(self);
            lemma_keyed_dom(self.fields@, field_name(), field_value());
        }
        match self.position(name) {
            Some(i) => {
                proof {
                    lemma_keyed_value(self.fields@, field_name(), field_value(), i as int);
                }
                Some(&self.fields[i].value)
            },
            None => None,
        }
    }

    /// Sets the field called `name` to `value`, adding the field where the
    /// document has none of that name.
    pub fn insert(&mut self, name: String, value: String)
        ensures
            final(self)@ == old(self)@.insert(name@, value@),
    {
        proof {
            use_type_invariant(&*self);
        }
        let found = self.position(name.as_str());
        let mut fields = Vec::new();
        std::mem::swap(&mut fields, &mut self.fields);
        let field = Field { name, value };
        match found {
            Some(i) => {
                proof {
                    lemma_keyed_update(fields@, field_name(), field_value(), i as int, field);
                }
                fields.set(i, field);
            },
            None => {
                proof {
                    lemma_keyed_push(fields@, field_name(), field_value(), field);
                }
                fields.push(field);
            },
        }
        self.fields = fields;
    }

    /// Takes the field called `name` out of the document and gives its value,
    /// if there was one.
    pub fn remove(&mut self, name: &str) -> (r: Option<String>)
        ensures
            r is Some == old(self)@.dom().contains(name@),
            r is Some ==> r->0@ == old(self)@[name@],
            final(self)@ == old(self)@.remove(name@),
    {
        proof {
            use_type_invariant(&*self);
            lemma_keyed_dom(self.fields@, field_name(), field_value());
        }
        match self.position(name) {
            Some(i) => {
                let mut fields = Vec::new();
                std::mem::swap(&mut fields, &mut self.fields);
                proof {
                    lemma_keyed_value(fields@, field_name(), field_value(), i as int);
                    lemma_keyed_remove(fields@, field_name(), field_value(), i as int);
                }
                let field = fields.remove(i);
                self.fields = fields;
                Some(field.value)
            },
            None => {
                assert(self@.remove(name@) =~= self@);
                None
            },
        }
    }

    /// The fields, in the order in which their names were first set.
    pub fn fields(&self) -> (r: &Vec<Field>)
        ensures
            distinct_names(r@),
            field_map(r@) == self@,
    {
        proof {
            use_type_invariant(self);
        }
        &self.fields
    }
}

} // verus!
