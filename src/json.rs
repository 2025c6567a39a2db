use vstd::prelude::*;
use crate::content::{Document, DocumentView};

verus! {

/// The JSON string literal of a text: quoted, with the characters that JSON
/// reserves escaped.
pub uninterp spec fn json_quoted(s: Seq<char>) -> Seq<char>;

/// Relies on `serde_json::to_string` on a `&str`, which writes the JSON
/// string literal of the text. Writing into memory cannot fail, so the error
/// branch is never taken.
#[verifier::external_body]
fn quote(s: &str) -> (r: String)
    ensures
        r@ == json_quoted(s@),
{
    serde_json::to_string(s).unwrap_or_default()
}

/// The character of a decimal digit.
pub open spec fn digit_char(d: int) -> char {
    if d == 0 {
        '0'
    } else if d == 1 {
        '1'
    } else if d == 2 {
        '2'
    } else if d == 3 {
        '3'
    } else if d == 4 {
        '4'
    } else if d == 5 {
        '5'
    } else if d == 6 {
        '6'
    } else if d == 7 {
        '7'
    } else if d == 8 {
        '8'
    } else {
        '9'
    }
}

/// The decimal numeral of `n`, without leading zeros.
pub open spec fn decimal(n: nat) -> Seq<char>
    decreases n,
{
    if n < 10 {
        seq![digit_char(n as int)]
    } else {
        decimal(n / 10) + seq![digit_char((n % 10) as int)]
    }
}

fn digit_str(d: u64) -> (r: &'static str)
    requires
        d < 10,
    ensures
        r@ == seq![digit_char(d as int)],
{
    let r = if d == 0 {
        "0"
    } else if d == 1 {
        "1"
    } else if d == 2 {
        "2"
    } else if d == 3 {
        "3"
    } else if d == 4 {
        "4"
    } else if d == 5 {
        "5"
    } else if d == 6 {
        "6"
    } else if d == 7 {
        "7"
    } else if d == 8 {
        "8"
    } else {
        "9"
    };
    proof {
        reveal_strlit("0");
        reveal_strlit("1");
        reveal_strlit("2");
        reveal_strlit("3");
        reveal_strlit("4");
        reveal_strlit("5");
        reveal_strlit("6");
        reveal_strlit("7");
        reveal_strlit("8");
        reveal_strlit("9");
    }
    assert(r@ =~= seq![digit_char(d as int)]);
    r
}

/// Writes `n` in decimal.
pub fn decimal_text(n: u64) -> (r: String)
    ensures
        r@ == decimal(n as nat),
    decreases n,
{
    if n < 10 {
        String::from_str(digit_str(n))
    } else {
        let mut r = decimal_text(n / 10);
        r.append(digit_str(n % 10));
        r
    }
}

/// One entry of the ancestor list, given the id as a JSON literal.
pub open spec fn ancestor_item(quoted_id: Seq<char>) -> Seq<char> {
    "{\"id\":"@ + quoted_id + "}"@
}

/// The entries of the ancestor list, separated by commas.
pub open spec fn ancestor_items(quoted_ids: Seq<Seq<char>>) -> Seq<char>
    decreases quoted_ids.len(),
{
    if quoted_ids.len() == 0 {
        seq![]
    } else if quoted_ids.len() == 1 {
        ancestor_item(quoted_ids[0])
    } else {
        ancestor_items(quoted_ids.drop_last()) + ","@ + ancestor_item(quoted_ids.last())
    }
}

/// The payload text, given each field already written as JSON.
pub open spec fn document_text(
    number: Seq<char>,
    page_type: Seq<char>,
    space_key: Seq<char>,
    title: Seq<char>,
    body_value: Seq<char>,
    representation: Seq<char>,
    quoted_ids: Seq<Seq<char>>,
) -> Seq<char> {
    "{\"version\":{\"number\":"@ + number + "},\"type\":"@ + page_type + ",\"space\":{\"key\":"@
        + space_key + "},\"title\":"@ + title + ",\"body\":{\"storage\":{\"value\":"@ + body_value
        + ",\"representation\":"@ + representation + "}},\"ancestors\":["@ + ancestor_items(
        quoted_ids,
    ) + "]}"@
}

/// The JSON text of a payload.
pub open spec fn json_of(d: DocumentView) -> Seq<char> {
    document_text(
        decimal(d.version as nat),
        json_quoted(d.page_type),
        json_quoted(d.space_key),
        json_quoted(d.title),
        json_quoted(d.body_value),
        json_quoted(d.representation),
        d.ancestors.map_values(|id: Seq<char>| json_quoted(id)),
    )
}

/// The texts that a vector of strings holds.
pub open spec fn texts(v: Seq<String>) -> Seq<Seq<char>> {
    v.map_values(|s: String| s@)
}

/// Lays out the payload text around fields already written as JSON.
pub fn frame_document(
    number: &str,
    page_type: &str,
    space_key: &str,
    title: &str,
    body_value: &str,
    representation: &str,
    quoted_ids: &Vec<String>,
) -> (r: String)
    ensures
        r@ == document_text(
            number@,
            page_type@,
            space_key@,
            title@,
            body_value@,
            representation@,
            texts(quoted_ids@),
        ),
{
    let mut items = String::new();
    let n = quoted_ids.len();
    let mut i: usize = 0;
    while i < n
        invariant
            n == quoted_ids@.len(),
            i <= n,
            items@ == ancestor_items(texts(quoted_ids@.subrange(0, i as int))),
        decreases n - i,
    {
        let ghost before = texts(quoted_ids@.subrange(0, i as int));
        let ghost after = texts(quoted_ids@.subrange(0, i + 1));
        assert(after.drop_last() =~= before);
        if i > 0 {
            items.append(",");
        }
        items.append("{\"id\":");
        items.append(quoted_ids[i].as_str());
        items.append("}");
        proof {
            if i == 0 {
                assert(items@ =~= ancestor_item(after[0]));
            } else {
                assert(items@ =~= ancestor_items(before) + ","@ + ancestor_item(after.last()));
            }
        }
        i += 1;
    }
    assert(quoted_ids@.subrange(0, n as int) =~= quoted_ids@);
    let mut r = String::from_str("{\"version\":{\"number\":");
    r.append(number);
    r.append("},\"type\":");
    r.append(page_type);
    r.append(",\"space\":{\"key\":");
    r.append(space_key);
    r.append("},\"title\":");
    r.append(title);
    r.append(",\"body\":{\"storage\":{\"value\":");
    r.append(body_value);
    r.append(",\"representation\":");
    r.append(representation);
    r.append("}},\"ancestors\":[");
    r.append(items.as_str());
    r.append("]}");
    assert(r@ =~= document_text(
        number@,
        page_type@,
        space_key@,
        title@,
        body_value@,
        representation@,
        texts(quoted_ids@),
    ));
    r
}

/// The JSON text of a payload, as it goes on the wire.
pub fn encode(doc: &Document) -> (r: String)
    ensures
        r@ == json_of(doc@),
{
    let mut quoted_ids: Vec<String> = Vec::new();
    let n = doc.ancestors.len();
    let mut i: usize = 0;
    while i < n
        invariant
            n == doc.ancestors@.len(),
            i <= n,
            texts(quoted_ids@) =~= doc@.ancestors.subrange(0, i as int).map_values(
                |id: Seq<char>| json_quoted(id),
            ),
        decreases n - i,
    {
        let q = quote(doc.ancestors[i].id.as_str());
        let ghost old_ids = quoted_ids@;
        quoted_ids.push(q);
        proof {
            assert(doc@.ancestors[i as int] == doc.ancestors@[i as int].id@);
            assert(texts(quoted_ids@) =~= texts(old_ids).push(q@));
            assert(doc@.ancestors.subrange(0, i + 1).map_values(|id: Seq<char>| json_quoted(id))
                =~= doc@.ancestors.subrange(0, i as int).map_values(|id: Seq<char>| json_quoted(id)).push(
                json_quoted(doc@.ancestors[i as int]),
            ));
        }
        i += 1;
    }
    assert(doc@.ancestors.subrange(0, n as int) =~= doc@.ancestors);
    let number = decimal_text(doc.version.number);
    let page_type = quote(doc.page_type.as_str());
    let space_key = quote(doc.space.key.as_str());
    let title = quote(doc.title.as_str());
    let body_value = quote(doc.body.storage.value.as_str());
    let representation = quote(doc.body.storage.representation.as_str());
    frame_document(
        number.as_str(),
        page_type.as_str(),
        space_key.as_str(),
        title.as_str(),
        body_value.as_str(),
        representation.as_str(),
        &quoted_ids,
    )
}

} // verus!
