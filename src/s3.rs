//! S3 wire documents: the `ListBucketResult` and `Error` XML bodies, and
//! user metadata carried in `x-amz-meta-*` headers.
use crate::text::{
    decimal_string, decimal_text, lemma_plain_text_escapes_to_itself, push_escaped, text_eq,
    xml_escaped,
};
use vstd::prelude::*;

verus! {

/// S3 error document.
#[derive(Debug, Clone)]
pub struct S3Error {
    pub code: String,
    pub message: String,
    pub resource: Option<String>,
    pub request_id: Option<String>,
}

/// `ListObjectsV2` response document.
#[derive(Debug, Clone)]
pub struct ListObjectsV2Result {
    pub name: String,
    pub prefix: Option<String>,
    pub max_keys: u32,
    pub is_truncated: bool,
    pub contents: Vec<Object>,
    pub common_prefixes: Option<Vec<CommonPrefix>>,
}

/// One object of a listing.
#[derive(Debug, Clone)]
pub struct Object {
    pub key: String,
    pub last_modified: String,
    pub etag: String,
    pub size: u64,
    pub storage_class: String,
}

/// A common prefix of a listing.
#[derive(Debug, Clone)]
pub struct CommonPrefix {
    pub prefix: String,
}

/// The XML declaration that opens every document.
pub open spec fn xml_declaration() -> Seq<char> {
    "<?xml version=\"1.0\" encoding=\"UTF-8\"?>"@
}

/// An element named `name` whose character data is `text`.
pub open spec fn element(name: Seq<char>, text: Seq<char>) -> Seq<char> {
    "<"@ + name + ">"@ + xml_escaped(text) + "</"@ + name + ">"@
}

/// `true` or `false`.
pub open spec fn bool_text(b: bool) -> Seq<char> {
    if b {
        "true"@
    } else {
        "false"@
    }
}

/// The `Contents` element of one object.
pub open spec fn object_xml(o: Object) -> Seq<char> {
    "<Contents>"@ + element("Key"@, o.key@) + element("LastModified"@, o.last_modified@)
        + element("ETag"@, o.etag@) + element("Size"@, decimal_text(o.size as nat)) + element(
        "StorageClass"@,
        o.storage_class@,
    ) + "</Contents>"@
}

/// The `Contents` elements of a run of objects, in order.
pub open spec fn contents_xml(s: Seq<Object>) -> Seq<char>
    decreases s.len(),
{
    if s.len() == 0 {
        Seq::empty()
    } else {
        contents_xml(s.drop_last()) + object_xml(s.last())
    }
}

/// The `CommonPrefixes` elements of a run of prefixes, in order.
pub open spec fn common_prefixes_xml(s: Seq<CommonPrefix>) -> Seq<char>
    decreases s.len(),
{
    if s.len() == 0 {
        Seq::empty()
    } else {
        common_prefixes_xml(s.drop_last()) + "<CommonPrefixes>"@ + element(
            "Prefix"@,
            s.last().prefix@,
        ) + "</CommonPrefixes>"@
    }
}

/// The text of an optional value, empty where it is unset.
pub open spec fn opt_text(v: Option<String>) -> Seq<char> {
    match v {
        Some(s) => s@,
        None => Seq::empty(),
    }
}

/// The `ListBucketResult` document of `r`.
pub open spec fn list_result_xml(r: ListObjectsV2Result) -> Seq<char> {
    xml_declaration() + "<ListBucketResult>"@ + element("Name"@, r.name@) + element(
        "Prefix"@,
        opt_text(r.prefix),
    ) + element("MaxKeys"@, decimal_text(r.max_keys as nat)) + element(
        "IsTruncated"@,
        bool_text(r.is_truncated),
    ) + contents_xml(r.contents@) + match r.common_prefixes {
        Some(v) => common_prefixes_xml(v@),
        None => Seq::empty(),
    } + "</ListBucketResult>"@
}

/// The error document for `code` and `message`.
pub open spec fn error_xml_text(code: Seq<char>, message: Seq<char>) -> Seq<char> {
    xml_declaration() + "\n<Error>\n    "@ + element("Code"@, code) + "\n    "@ + element(
        "Message"@,
        message,
    ) + "\n</Error>"@
}

/// For a code and message without `&`, `<` or `>`, the error document is
/// the plain template with the two inserted as they are.
pub proof fn lemma_error_xml_plain(code: Seq<char>, message: Seq<char>)
    requires
        forall|i: int|
            0 <= i < code.len() ==> #[trigger] code[i] != '&' && code[i] != '<' && code[i] != '>',
        forall|i: int|
            0 <= i < message.len() ==> #[trigger] message[i] != '&' && message[i] != '<'
                && message[i] != '>',
    ensures
        error_xml_text(code, message) == xml_declaration() + "\n<Error>\n    <Code>"@ + code
            + "</Code>\n    <Message>"@ + message + "</Message>\n</Error>"@,
{
    lemma_plain_text_escapes_to_itself(code);
    lemma_plain_text_escapes_to_itself(message);
    reveal_strlit("\n<Error>\n    ");
    reveal_strlit("\n<Error>\n    <Code>");
    reveal_strlit("</Code>\n    <Message>");
    reveal_strlit("</Message>\n</Error>");
    reveal_strlit("\n</Error>");
    reveal_strlit("\n    ");
    reveal_strlit("<");
    reveal_strlit(">");
    reveal_strlit("</");
    reveal_strlit("Code");
    reveal_strlit("Message");
    assert(error_xml_text(code, message) =~= xml_declaration() + "\n<Error>\n    <Code>"@ + code
        + "</Code>\n    <Message>"@ + message + "</Message>\n</Error>"@);
}

/// Appends an element named `name` holding `text`.
pub fn push_element(out: &mut String, name: &str, text: &str)
    ensures
        final(out)@ == old(out)@ + element(name@, text@),
{
    out.append("<");
    out.append(name);
    out.append(">");
    push_escaped(out, text);
    out.append("</");
    out.append(name);
    out.append(">");
}

fn push_contents(out: &mut String, s: &Vec<Object>)
    ensures
        final(out)@ == old(out)@ + contents_xml(s@),
{
    let ghost start = out@;
    let mut i: usize = 0;
    while i < s.len()
        invariant
            i <= s@.len(),
            out@ == start + contents_xml(s@.subrange(0, i as int)),
        decreases s@.len() - i,
    {
        let o = &s[i];
        let ghost before = out@;
        out.append("<Contents>");
        push_element(out, "Key", o.key.as_str());
        push_element(out, "LastModified", o.last_modified.as_str());
        push_element(out, "ETag", o.etag.as_str());
        let size = decimal_string(o.size);
        push_element(out, "Size", size.as_str());
        push_element(out, "StorageClass", o.storage_class.as_str());
        out.append("</Contents>");
        proof {
            let p = s@.subrange(0, i + 1);
            assert(p.drop_last() =~= s@.subrange(0, i as int));
            assert(p.last() == *o);
            assert(out@ =~= before + object_xml(*o));
        }
        i = i + 1;
    }
    assert(s@.subrange(0, s@.len() as int) =~= s@);
}

fn push_common_prefixes(out: &mut String, s: &Vec<CommonPrefix>)
    ensures
        final(out)@ == old(out)@ + common_prefixes_xml(s@),
{
    let ghost start = out@;
    let mut i: usize = 0;
    while i < s.len()
        invariant
            i <= s@.len(),
            out@ == start + common_prefixes_xml(s@.subrange(0, i as int)),
        decreases s@.len() - i,
    {
        let ghost before = out@;
        out.append("<CommonPrefixes>");
        push_element(out, "Prefix", s[i].prefix.as_str());
        out.append("</CommonPrefixes>");
        proof {
            let p = s@.subrange(0, i + 1);
            assert(p.drop_last() =~= s@.subrange(0, i as int));
            assert(out@ =~= start + common_prefixes_xml(p));
        }
        i = i + 1;
    }
    assert(s@.subrange(0, s@.len() as int) =~= s@);
}

impl ListObjectsV2Result {
    /// An empty, untruncated listing of `bucket`.
    pub fn new(bucket: String, prefix: Option<String>, max_keys: u32) -> (r: ListObjectsV2Result)
        ensures
            r.name == bucket,
            r.prefix == prefix,
            r.max_keys == max_keys,
            !r.is_truncated,
            r.contents@.len() == 0,
            r.common_prefixes is None,
    {
        ListObjectsV2Result {
            name: bucket,
            prefix,
            max_keys,
            is_truncated: false,
            contents: Vec::new(),
            common_prefixes: None,
        }
    }

    /// The `ListBucketResult` XML document.
    pub fn to_xml(&self) -> (r: String)
        ensures
            r@ == list_result_xml(*self),
    {
        let mut out = String::from_str("<?xml version=\"1.0\" encoding=\"UTF-8\"?>");
        out.append("<ListBucketResult>");
        push_element(&mut out, "Name", self.name.as_str());
        match &self.prefix {
            Some(p) => push_element(&mut out, "Prefix", p.as_str()),
            None => push_element(&mut out, "Prefix", ""),
        }
        let max_keys = decimal_string(self.max_keys as u64);
        push_element(&mut out, "MaxKeys", max_keys.as_str());
        if self.is_truncated {
            push_element(&mut out, "IsTruncated", "true");
        } else {
            push_element(&mut out, "IsTruncated", "false");
        }
        push_contents(&mut out, &self.contents);
        if let Some(v) = &self.common_prefixes {
            push_common_prefixes(&mut out, v);
        }
        out.append("</ListBucketResult>");
        proof {
            reveal_strlit("");
        }
        assert(out@ =~= list_result_xml(*self));
        out
    }
}

/// The S3 error document for `code` and `message`.
pub fn error_xml(code: &str, message: &str) -> (r: String)
    ensures
        r@ == error_xml_text(code@, message@),
{
    let mut out = String::from_str("<?xml version=\"1.0\" encoding=\"UTF-8\"?>");
    out.append("\n<Error>\n    ");
    push_element(&mut out, "Code", code);
    out.append("\n    ");
    push_element(&mut out, "Message", message);
    out.append("\n</Error>");
    assert(out@ =~= error_xml_text(code@, message@));
    out
}

/// The header name prefix that marks user metadata.
pub open spec fn meta_prefix() -> Seq<char> {
    "x-amz-meta-"@
}

/// The metadata key that header `name` carries, if it carries one.
pub open spec fn meta_key(name: Seq<char>) -> Option<Seq<char>> {
    let n = meta_prefix().len();
    if name.len() >= n && name.subrange(0, n as int) == meta_prefix() {
        Some(name.subrange(n as int, name.len() as int))
    } else {
        None
    }
}

/// Whether no key occurs twice.
pub open spec fn keys_unique(s: Seq<(Seq<char>, Seq<char>)>) -> bool {
    forall|i: int, j: int| 0 <= i < j < s.len() ==> #[trigger] s[i].0 != #[trigger] s[j].0
}

/// `s` with `k` bound to `v`: the value of an entry with key `k` replaced in
/// place, or a new entry at the end.
pub open spec fn upsert(s: Seq<(Seq<char>, Seq<char>)>, k: Seq<char>, v: Seq<char>) -> Seq<
    (Seq<char>, Seq<char>),
> {
    if exists|j: int| 0 <= j < s.len() && #[trigger] s[j].0 == k {
        let j = choose|j: int| 0 <= j < s.len() && #[trigger] s[j].0 == k;
        s.update(j, (k, v))
    } else {
        s.push((k, v))
    }
}

/// The user metadata in `headers` (key, and value where it is text): one
/// entry per key, in the order keys first appear, holding the last value.
pub open spec fn metadata_of(headers: Seq<(String, Option<String>)>) -> Seq<
    (Seq<char>, Seq<char>),
>
    decreases headers.len(),
{
    if headers.len() == 0 {
        Seq::empty()
    } else {
        let rest = metadata_of(headers.drop_last());
        let h = headers.last();
        match (meta_key(h.0@), h.1) {
            (Some(k), Some(v)) => upsert(rest, k, v@),
            _ => rest,
        }
    }
}

/// The texts of a run of pairs.
pub open spec fn pairs_view(v: Seq<(String, String)>) -> Seq<(Seq<char>, Seq<char>)> {
    v.map_values(|p: (String, String)| (p.0@, p.1@))
}

fn strip_meta_prefix(name: &str) -> (r: Option<String>)
    ensures
        match meta_key(name@) {
            Some(k) => r is Some && r->Some_0@ == k,
            None => r is None,
        },
{
    proof {
        reveal_strlit("x-amz-meta-");
    }
    let n = name.unicode_len();
    if n < 11 {
        return None;
    }
    if !text_eq(name.substring_char(0, 11), "x-amz-meta-") {
        return None;
    }
    Some(String::from_str(name.substring_char(11, n)))
}

/// The user metadata that `headers` carry: for each header named
/// `x-amz-meta-<key>` whose value is text, `<key>` bound to the value; a
/// later header with the same key replaces the value of an earlier one.
pub fn extract_metadata(headers: &Vec<(String, Option<String>)>) -> (r: Vec<(String, String)>)
    ensures
        pairs_view(r@) == metadata_of(headers@),
        keys_unique(pairs_view(r@)),
{
    let mut out: Vec<(String, String)> = Vec::new();
    let mut i: usize = 0;
    while i < headers.len()
        invariant
            i <= headers@.len(),
            pairs_view(out@) == metadata_of(headers@.subrange(0, i as int)),
            keys_unique(pairs_view(out@)),
        decreases headers@.len() - i,
    {
        let ghost before = pairs_view(out@);
        assert(before.len() == out@.len());
        let (name, value) = &headers[i];
        proof {
            let p = headers@.subrange(0, i + 1);
            assert(p.drop_last() =~= headers@.subrange(0, i as int));
            assert(p.last() == headers@[i as int]);
        }
        match (strip_meta_prefix(name.as_str()), value) {
            (Some(k), Some(v)) => {
                let mut j: usize = 0;
                let mut found = false;
                while j < out.len() && !found
                    invariant
                        pairs_view(out@) == before,
                        before.len() == out@.len(),
                        keys_unique(before),
                        j <= out@.len(),
                        found ==> j < out@.len() && before[j as int].0 == k@,
                        forall|x: int| 0 <= x < j ==> #[trigger] before[x].0 != k@,
                    decreases out@.len() - j + (if found { 0int } else { 1int }),
                {
                    if text_eq(out[j].0.as_str(), k.as_str()) {
                        found = true;
                    } else {
                        j = j + 1;
                    }
                }
                if found {
                    proof {
                        assert(before[j as int].0 == k@);
                        let c = choose|c: int| 0 <= c < before.len() && #[trigger] before[c].0 == k@;
                        assert(c == j as int);
                    }
                    out.set(j, (k, v.clone()));
                    assert(pairs_view(out@) =~= before.update(j as int, (k@, v@)));
                    assert(pairs_view(out@) == upsert(before, k@, v@));
                } else {
                    out.push((k, v.clone()));
                    assert(pairs_view(out@) =~= before.push((k@, v@)));
                    assert(!exists|c: int| 0 <= c < before.len() && #[trigger] before[c].0 == k@);
                }
            },
            _ => {},
        }
        i = i + 1;
    }
    assert(headers@.subrange(0, headers@.len() as int) =~= headers@);
    out
}

} // verus!
