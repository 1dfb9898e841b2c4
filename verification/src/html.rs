//! A readable HTML rendering of the headers of a response, with links made
//! into anchors.

use vstd::prelude::*;
use vstd::string::*;
use crate::document::Field;
use crate::text::{
    chars_of, has_at, occurs_at, pieces_of, push_char, split, split_text, str_eq, string_of,
};

verus! {

/// What stands in place of a character in HTML text.
pub open spec fn escaped_char(c: char) -> Seq<char> {
    if c == '<' {
        "&lt;"@
    } else if c == '>' {
        "&gt;"@
    } else if c == '&' {
        "&amp;"@
    } else if c == '"' {
        "&quot;"@
    } else if c == '\'' {
        "&apos;"@
    } else {
        seq![c]
    }
}

/// A text with each of the five characters `<`, `>`, `&`, `"` and `'` replaced
/// by its entity, and every other character kept.
pub open spec fn escaped_text(s: Seq<char>) -> Seq<char>
    decreases s.len(),
{
    if s.len() == 0 {
        Seq::empty()
    } else {
        escaped_text(s.drop_last()) + escaped_char(s.last())
    }
}

/// Escapes a text for use in HTML.
pub fn html_escape(text: &str) -> (r: String)
    ensures
        r@ == escaped_text(text@),
{
    let mut out = String::new();
    for c in it: text.chars()
        invariant
            it.seq() == text@,
            out@ == escaped_text(text@.take(it.index() as int)),
    {
        let ghost done = text@.take(it.index() as int);
        let ghost next = text@.take(it.index() + 1);
        proof {
            assert(next.drop_last() =~= done);
            assert(next.last() == c);
        }
        if c == '<' {
            out.append("&lt;");
        } else if c == '>' {
            out.append("&gt;");
        } else if c == '&' {
            out.append("&amp;");
        } else if c == '"' {
            out.append("&quot;");
        } else if c == '\'' {
            out.append("&apos;");
        } else {
            push_char(&mut out, c);
            assert(out@ =~= escaped_text(done) + seq![c]);
        }
    }
    assert(text@.take(text@.len() as int) =~= text@);
    out
}

/// The separator between a link and its relation.
pub open spec fn link_separator() -> Seq<char> {
    seq![':', ' ']
}

/// The separator between the entries of a list of links.
pub open spec fn list_separator() -> Seq<char> {
    seq![',', ' ']
}

/// The opening of a relation: `rel="`.
pub open spec fn rel_opening() -> Seq<char> {
    seq!['r', 'e', 'l', '=', '"']
}

/// `link` is a target between angle brackets.
pub open spec fn is_bracketed(link: Seq<char>) -> bool {
    link.len() >= 2 && link[0] == '<' && link.last() == '>'
}

/// `rel` is a relation between quotes, after `rel=`.
pub open spec fn is_relation(rel: Seq<char>) -> bool {
    rel.len() >= 6 && rel.subrange(0, 5) == rel_opening() && rel.last() == '"'
}

/// The target and the relation of an entry `<target>: rel="relation"`. The
/// entry is cut at `: `; its first two pieces count, and they must be a
/// target in angle brackets and a relation in quotes.
pub open spec fn link_rel(s: Seq<char>) -> Option<(Seq<char>, Seq<char>)> {
    let parts = split_text(s, link_separator());
    if parts.len() >= 2 && is_bracketed(parts[0]) && is_relation(parts[1]) {
        Some((parts[0].subrange(1, parts[0].len() - 1), parts[1].subrange(5, parts[1].len() - 1)))
    } else {
        None
    }
}

/// The links among the given entries, in order; what is no link is left out.
pub open spec fn links_of(entries: Seq<Seq<char>>) -> Seq<(Seq<char>, Seq<char>)>
    decreases entries.len(),
{
    if entries.len() == 0 {
        Seq::empty()
    } else {
        match link_rel(entries.last()) {
            Some(link) => links_of(entries.drop_last()).push(link),
            None => links_of(entries.drop_last()),
        }
    }
}

/// The links of a header value: its entries are separated by `, `.
pub open spec fn parsed_links(s: Seq<char>) -> Seq<(Seq<char>, Seq<char>)> {
    links_of(split_text(s, list_separator()))
}

/// The characters of a list of pairs of strings.
pub open spec fn pairs_view(pairs: Seq<(String, String)>) -> Seq<(Seq<char>, Seq<char>)> {
    Seq::new(pairs.len(), |i: int| (pairs[i].0@, pairs[i].1@))
}

/// Reads one entry of a list of links.
pub fn parse_link_rel(link_rel: &str) -> (r: Option<(String, String)>)
    ensures
        match (r, self::link_rel(link_rel@)) {
            (Some(found), Some(expected)) => found.0@ == expected.0 && found.1@ == expected.1,
            (None, None) => true,
            _ => false,
        },
{
    let chars = chars_of(link_rel);
    let separator: Vec<char> = vec![':', ' '];
    assert(separator@ =~= link_separator());
    let bounds = split(&chars, &separator);
    let ghost parts = split_text(link_rel@, link_separator());
    assert(parts.len() == bounds@.len());
    if bounds.len() < 2 {
        return None;
    }
    let (link_from, link_to) = bounds[0];
    let (rel_from, rel_to) = bounds[1];
    proof {
        assert(pieces_of(chars@, bounds@)[0] == parts[0]);
        assert(pieces_of(chars@, bounds@)[1] == parts[1]);
    }
    if link_to - link_from < 2 || chars[link_from] != '<' || chars[link_to - 1] != '>' {
        return None;
    }
    let opening: Vec<char> = vec!['r', 'e', 'l', '=', '"'];
    assert(opening@ =~= rel_opening());
    if rel_to - rel_from < 6 || !has_at(&chars, rel_from, &opening) || chars[rel_to - 1] != '"' {
        proof {
            if rel_to - rel_from >= 6 {
                assert(parts[1].subrange(0, 5) =~= chars@.subrange(rel_from as int, rel_from + 5));
            }
        }
        return None;
    }
    proof {
        assert(parts[1].subrange(0, 5) =~= chars@.subrange(rel_from as int, rel_from + 5));
        assert(parts[0].subrange(1, parts[0].len() - 1) =~= chars@.subrange(
            link_from + 1,
            link_to - 1,
        ));
        assert(parts[1].subrange(5, parts[1].len() - 1) =~= chars@.subrange(
            rel_from + 5,
            rel_to - 1,
        ));
    }
    let link = string_of(&chars, link_from + 1, link_to - 1);
    let rel = string_of(&chars, rel_from + 5, rel_to - 1);
    Some((link, rel))
}

/// Reads the links of a header value.
pub fn parse_links(header_value: &str) -> (r: Vec<(String, String)>)
    ensures
        pairs_view(r@) == parsed_links(header_value@),
{
    let chars = chars_of(header_value);
    let separator: Vec<char> = vec![',', ' '];
    assert(separator@ =~= list_separator());
    let bounds = split(&chars, &separator);
    let ghost entries = split_text(header_value@, list_separator());
    assert(entries.len() == bounds@.len());
    let mut links: Vec<(String, String)> = Vec::new();
    let mut i: usize = 0;
    assert(entries.take(0) =~= Seq::<Seq<char>>::empty());
    assert(pairs_view(links@) =~= links_of(entries.take(0)));
    while i < bounds.len()
        invariant
            i <= bounds@.len(),
            chars@ == header_value@,
            entries == pieces_of(chars@, bounds@),
            forall|k: int| 0 <= k < bounds@.len() ==> (#[trigger] bounds@[k]).0 <= bounds@[k].1
                <= chars@.len(),
            pairs_view(links@) == links_of(entries.take(i as int)),
        decreases bounds@.len() - i,
    {
        let (from, to) = bounds[i];
        let entry = string_of(&chars, from, to);
        let ghost before = links@;
        proof {
            assert(entries.take(i + 1).drop_last() =~= entries.take(i as int));
            assert(entries.take(i + 1).last() == entries[i as int]);
            assert(entry@ == entries[i as int]);
        }
        match parse_link_rel(entry.as_str()) {
            Some(link) => {
                links.push(link);
                assert(pairs_view(links@) =~= pairs_view(before).push((link.0@, link.1@)));
            },
            None => {},
        }
        i = i + 1;
    }
    assert(entries.take(entries.len() as int) =~= entries);
    links
}

/// Makes the text that tells a client that a resource has gone.
pub fn make_eased_resource_error() -> (r: String)
    ensures
        r@ == "resource has recently expired or been deleted"@,
{
    "resource has recently expired or been deleted".to_owned()
}

/// The style of the list of headers.
pub const HEADERS_STYLESHEET: &'static str =
    ".headers { font-family: monospace; color: grey; border-bottom: 1px solid lightgrey; } .headers ol { list-style: none; padding: 0; }";

/// The schemes of the addresses that are made into anchors, each with the
/// opening of such an address.
pub open spec fn scheme_names() -> Seq<(&'static str, &'static str)> {
    seq![("http", "http://"), ("https", "https://"), ("ws", "ws://"), ("wss", "wss://")]
}

/// `s` opens like an address of one of the known schemes.
pub open spec fn is_href_text(s: Seq<char>) -> bool {
    exists|i: int| 0 <= i < scheme_names().len() && occurs_at(s, 0, (#[trigger] scheme_names()[i]).1@)
}

/// What `write_href` writes for `href`: the text between quotes, and before
/// and after an address the opening and the end of an anchor tag.
pub open spec fn href_text(href: Seq<char>) -> Seq<char> {
    if is_href_text(href) {
        "\""@ + "<a href=\""@ + href + "\">"@ + "\""@
    } else {
        "\""@ + href + "\""@
    }
}

/// Writes values as HTML and makes addresses into anchors.
pub struct HtmlVisitor {
    writer: String,
    names: Vec<(&'static str, &'static str)>,
}

impl HtmlVisitor {
    #[verifier::type_invariant]
    spec fn well_formed(self) -> bool {
        self.names@ == scheme_names()
    }

    /// What has been written so far.
    pub closed spec fn written(self) -> Seq<char> {
        self.writer@
    }

    /// A visitor that writes behind what `writer` holds already.
    pub fn new(writer: String) -> (r: HtmlVisitor)
        ensures
            r.written() == writer@,
    {
        let names = vec![("http", "http://"), ("https", "https://"), ("ws", "ws://"), ("wss", "wss://")];
        assert(names@ =~= scheme_names());
        HtmlVisitor { writer, names }
    }

    /// Whether `href` opens like an address of one of the known schemes.
    pub fn is_href(&self, href: &str) -> (r: bool)
        ensures
            r == is_href_text(href@),
    {
        proof {
            use_type_invariant(self);
        }
        let chars = chars_of(href);
        let mut i: usize = 0;
        while i < self.names.len()
            invariant
                i <= self.names@.len(),
                self.names@ == scheme_names(),
                chars@ == href@,
                forall|k: int| 0 <= k < i ==> !occurs_at(href@, 0, (#[trigger] scheme_names()[k]).1@),
            decreases self.names@.len() - i,
        {
            let opening = chars_of(self.names[i].1);
            if has_at(&chars, 0, &opening) {
                assert(occurs_at(href@, 0, scheme_names()[i as int].1@));
                return true;
            }
            i = i + 1;
        }
        false
    }

    /// Writes `href` between quotes, as an anchor where it is an address.
    pub fn write_href(&mut self, href: &str)
        ensures
            final(self).written() == old(self).written() + href_text(href@),
    {
        proof {
            use_type_invariant(&*self);
        }
        let is_href = self.is_href(href);
        let mut writer = String::new();
        std::mem::swap(&mut writer, &mut self.writer);
        let ghost before = writer@;
        writer.append("\"");
        if is_href {
            writer.append("<a href=\"");
        }
        writer.append(href);
        if is_href {
            writer.append("\">");
        }
        writer.append("\"");
        assert(writer@ =~= before + href_text(href@));
        self.writer = writer;
    }

    /// Gives up the visitor for what it has written.
    pub fn into_writer(self) -> (r: String)
        ensures
            r@ == self.written(),
    {
        self.writer
    }
}

/// The rendering of one link.
pub open spec fn link_html(link: Seq<char>, rel: Seq<char>) -> Seq<char> {
    "<"@ + escaped_text(link) + "<a href=\""@ + escaped_text(link) + "\" rel=\""@ + escaped_text(
        link,
    ) + "\">"@ + escaped_text(rel) + "</a>"@
}

/// The rendering of a list of links, one after the other.
pub open spec fn links_html(links: Seq<(Seq<char>, Seq<char>)>) -> Seq<char>
    decreases links.len(),
{
    if links.len() == 0 {
        Seq::empty()
    } else {
        links_html(links.drop_last()) + link_html(links.last().0, links.last().1)
    }
}

/// The rendering of the value of a header: an anchor for a location, the
/// links of a link header, and the escaped value for every other header.
pub open spec fn value_html(name: Seq<char>, value: Seq<char>) -> Seq<char> {
    if name == "location"@ {
        "<a href=\""@ + escaped_text(value) + "\">"@ + escaped_text(value) + "</a>"@
    } else if name == "link"@ {
        links_html(parsed_links(value))
    } else {
        escaped_text(value)
    }
}

/// The rendering of one header as an item of the list.
pub open spec fn header_html(name: Seq<char>, value: Seq<char>) -> Seq<char> {
    "<li><span class=\"name\">"@ + name + "</span>: <span class=\"value\">"@ + value_html(
        name,
        value,
    ) + "</span></li>"@
}

/// The rendering of a list of headers, one item after the other.
pub open spec fn headers_html(headers: Seq<Field>) -> Seq<char>
    decreases headers.len(),
{
    if headers.len() == 0 {
        Seq::empty()
    } else {
        headers_html(headers.drop_last()) + header_html(
            headers.last().name@,
            headers.last().value@,
        )
    }
}

/// The HTML page that shows the given headers.
pub open spec fn response_html(headers: Seq<Field>) -> Seq<char> {
    "<html><head>"@ + "<style>"@ + HEADERS_STYLESHEET@ + "</style>"@ + "</head><body>"@
        + "<div class=\"headers\"><ol>"@ + headers_html(headers) + "</ol></div><br/>"@
        + "<div class=\"json gutter\">"@ + "</div>"@ + "</body></html>"@
}

/// Appends the rendering of the value of a header.
fn write_value(html: &mut String, name: &str, value: &str)
    ensures
        final(html)@ == old(html)@ + value_html(name@, value@),
{
    let ghost before = html@;
    if str_eq(name, "location") {
        let html_value = html_escape(value);
        html.append("<a href=\"");
        html.append(html_value.as_str());
        html.append("\">");
        html.append(html_value.as_str());
        html.append("</a>");
        assert(html@ =~= before + value_html(name@, value@));
    } else if str_eq(name, "link") {
        let links = parse_links(value);
        let ghost parsed = parsed_links(value@);
        let mut i: usize = 0;
        assert(parsed.take(0) =~= Seq::<(Seq<char>, Seq<char>)>::empty());
        assert(html@ =~= before + links_html(parsed.take(0)));
        while i < links.len()
            invariant
                i <= links@.len(),
                pairs_view(links@) == parsed,
                html@ == before + links_html(parsed.take(i as int)),
            decreases links@.len() - i,
        {
            let html_link = html_escape(links[i].0.as_str());
            let html_rel = html_escape(links[i].1.as_str());
            let ghost so_far = html@;
            proof {
                assert(parsed.take(i + 1).drop_last() =~= parsed.take(i as int));
                assert(parsed.take(i + 1).last() == parsed[i as int]);
                assert(parsed[i as int] == (links@[i as int].0@, links@[i as int].1@));
            }
            html.append("<");
            html.append(html_link.as_str());
            html.append("<a href=\"");
            html.append(html_link.as_str());
            html.append("\" rel=\"");
            html.append(html_link.as_str());
            html.append("\">");
            html.append(html_rel.as_str());
            html.append("</a>");
            assert(html@ =~= so_far + link_html(links@[i as int].0@, links@[i as int].1@));
            assert(html@ =~= before + links_html(parsed.take(i + 1)));
            i = i + 1;
        }
        assert(parsed.take(parsed.len() as int) =~= parsed);
    } else {
        let html_value = html_escape(value);
        html.append(html_value.as_str());
    }
}

/// Constructs an HTML rendering of the headers of a response. Header names
/// are expected in lower case, as they are compared.
pub fn make_html_response_body(headers: &Vec<Field>) -> (r: String)
    ensures
        r@ == response_html(headers@),
{
    let mut html = String::new();
    html.append("<html><head>");
    html.append("<style>");
    html.append(HEADERS_STYLESHEET);
    html.append("</style>");
    html.append("</head><body>");
    html.append("<div class=\"headers\"><ol>");
    let ghost opening = html@;
    let mut i: usize = 0;
    assert(headers@.take(0) =~= Seq::<Field>::empty());
    assert(html@ =~= opening + headers_html(headers@.take(0)));
    while i < headers.len()
        invariant
            i <= headers@.len(),
            html@ == opening + headers_html(headers@.take(i as int)),
        decreases headers@.len() - i,
    {
        let name = headers[i].name.as_str();
        let value = headers[i].value.as_str();
        let ghost so_far = html@;
        proof {
            assert(headers@.take(i + 1).drop_last() =~= headers@.take(i as int));
            assert(headers@.take(i + 1).last() == headers@[i as int]);
        }
        html.append("<li><span class=\"name\">");
        html.append(name);
        html.append("</span>: <span class=\"value\">");
        write_value(&mut html, name, value);
        html.append("</span></li>");
        assert(html@ =~= so_far + header_html(name@, value@));
        assert(html@ =~= opening + headers_html(headers@.take(i + 1)));
        i = i + 1;
    }
    assert(headers@.take(headers@.len() as int) =~= headers@);
    html.append("</ol></div><br/>");
    html.append("<div class=\"json gutter\">");
    html.append("</div>");
    html.append("</body></html>");
    assert(html@ =~= response_html(headers@));
    html
}

} // verus!
