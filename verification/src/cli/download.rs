//! The name under which a download is saved: from the `Content-Disposition`
//! header, else from the last segment of the URL's path, made safe for a
//! file system; and where it is written.

use vstd::prelude::*;
use crate::text::{
    chars_eq, chars_of, contains, to_ascii_lowercase_exec, find_first, find_last, first_index, last_index,
    lemma_first_index, lemma_last_index, split_char, split_char_exec, chars_seqs, string_of,
    sub_chars, to_ascii_lowercase, trim, trim_chars, has_prefix,
};
use crate::weburl::{WebUrl, spec_url_parse, spec_url_path};
use vstd::utf8::{decode_utf8, encode_utf8, valid_utf8};

verus! {

broadcast use vstd::string::group_string_axioms;

/// The command that downloads `url`, into `output` where one is given: a
/// directory to put the file in, or the file's path.
pub struct DownloadCommand {
    pub url: String,
    pub output: Option<String>,
}

/// The value of the hexadecimal digit `b`, as `char::to_digit(16)` reads it.
pub open spec fn hex_value(b: u8) -> Option<nat> {
    if 48 <= b <= 57 {
        Some((b - 48) as nat)
    } else if 97 <= b <= 102 {
        Some((b - 87) as nat)
    } else if 65 <= b <= 70 {
        Some((b - 55) as nat)
    } else {
        None
    }
}

/// Percent-decoding of `b`: each `%` followed by two hexadecimal digits is
/// the byte they give; every other byte stays.
pub open spec fn percent_decode_bytes(b: Seq<u8>) -> Seq<u8>
    decreases b.len(),
{
    if b.len() == 0 {
        Seq::empty()
    } else if b[0] == 37 && b.len() >= 3 && hex_value(b[1]) is Some && hex_value(b[2]) is Some {
        seq![(hex_value(b[1])->0 * 16 + hex_value(b[2])->0) as u8] + percent_decode_bytes(b.skip(3))
    } else {
        seq![b[0]] + percent_decode_bytes(b.skip(1))
    }
}

/// The text that the percent-encoded `s` stands for, where its bytes are UTF-8.
pub open spec fn percent_decode_utf8_spec(s: Seq<char>) -> Option<Seq<char>> {
    let b = percent_decode_bytes(encode_utf8(s));
    if valid_utf8(b) {
        Some(decode_utf8(b))
    } else {
        None
    }
}

/// `percent_decode_str(s).decode_utf8()`: the percent-decoded bytes of `s`
/// read as UTF-8, `None` where they are not UTF-8.
#[verifier::external_body]
fn percent_decode_utf8(s: &str) -> (r: Option<String>)
    ensures
        match percent_decode_utf8_spec(s@) {
            Some(d) => r matches Some(t) && t@ == d,
            None => r is None,
        },
{
    percent_encoding::percent_decode_str(s).decode_utf8().ok().map(|d| d.into_owned())
}

/// Whether `c` is removed from every file name: `/ ? < > \ : * | "`.
pub open spec fn is_illegal_in_file_name(c: char) -> bool {
    c == '/' || c == '?' || c == '<' || c == '>' || c == '\\' || c == ':' || c == '*' || c == '|'
        || c == '"'
}

/// Whether `c` is a control character, which is removed from file names.
pub open spec fn is_control(c: char) -> bool {
    ('\u{0}' <= c && c <= '\u{1f}') || ('\u{80}' <= c && c <= '\u{9f}')
}

/// What holds of every name that `sanitize_filename::sanitize` gives back:
/// no illegal and no control character, and at most 255 bytes.
pub open spec fn is_safe_file_name(s: Seq<char>) -> bool {
    &&& forall|i: int| 0 <= i < s.len() ==> !is_illegal_in_file_name(#[trigger] s[i])
    &&& forall|i: int| 0 <= i < s.len() ==> !is_control(#[trigger] s[i])
    &&& encode_utf8(s).len() <= 255
}

/// Whether `a` is `b` with some of its characters deleted.
pub open spec fn is_subsequence(a: Seq<char>, b: Seq<char>) -> bool
    decreases b.len(),
{
    if a.len() == 0 {
        true
    } else if b.len() == 0 {
        false
    } else if a.last() == b.last() {
        is_subsequence(a.drop_last(), b.drop_last())
    } else {
        is_subsequence(a, b.drop_last())
    }
}

/// Whether the lower-cased name `l` is the device name `stem`, alone or
/// followed by an extension.
pub open spec fn is_stem(l: Seq<char>, stem: Seq<char>) -> bool {
    has_prefix(l, stem) && (l.len() == stem.len() || l[stem.len() as int] == '.')
}

/// Whether the lower-cased name `l` is the device name `stem` followed by one
/// digit, alone or followed by an extension.
pub open spec fn is_numbered_stem(l: Seq<char>, stem: Seq<char>) -> bool {
    &&& has_prefix(l, stem)
    &&& l.len() > stem.len()
    &&& '0' <= l[stem.len() as int] && l[stem.len() as int] <= '9'
    &&& (l.len() == stem.len() + 1 || l[stem.len() + 1int] == '.')
}

/// Whether `s` names a device that Windows reserves: `con`, `prn`, `aux`,
/// `nul`, `com0`-`com9` or `lpt0`-`lpt9`, in any case, with or without an
/// extension.
pub open spec fn has_reserved_stem(s: Seq<char>) -> bool {
    let l = to_ascii_lowercase(s);
    ||| is_stem(l, "con"@)
    ||| is_stem(l, "prn"@)
    ||| is_stem(l, "aux"@)
    ||| is_stem(l, "nul"@)
    ||| is_numbered_stem(l, "com"@)
    ||| is_numbered_stem(l, "lpt"@)
}

/// Whether `s` is a name that every platform keeps as it is: no illegal or
/// control character, not a reserved device name, not ending in `.` or a
/// space, and at most 255 bytes.
pub open spec fn is_plain_file_name(s: Seq<char>) -> bool {
    &&& forall|i: int| 0 <= i < s.len() ==> !is_illegal_in_file_name(#[trigger] s[i])
    &&& forall|i: int| 0 <= i < s.len() ==> !is_control(#[trigger] s[i])
    &&& !has_reserved_stem(s)
    &&& (s.len() == 0 || (s.last() != '.' && s.last() != ' '))
    &&& encode_utf8(s).len() <= 255
}

/// What a file is saved as when its name is `name`: `name` with characters
/// deleted so that it is safe, and `name` itself where it is plain.
pub open spec fn saved_name(s: Seq<char>, name: Seq<char>) -> bool {
    &&& is_safe_file_name(s)
    &&& is_subsequence(s, name)
    &&& (is_plain_file_name(name) ==> s == name)
}

/// `sanitize_filename::sanitize(name)`: `name` without the characters that
/// file systems refuse. With its default options every rule deletes
/// characters (the replacement is empty) or cuts the name at 255 bytes; only
/// the rules on names reserved by Windows and on trailing dots and spaces
/// depend on the platform the crate was built for. So the result is `name`
/// with characters deleted, safe, and `name` itself where no rule of any
/// platform applies; which characters a platform deletes besides is not
/// stated.
#[verifier::external_body]
fn sanitize(name: &str) -> (r: String)
    ensures
        saved_name(r@, name@),
{
    sanitize_filename::sanitize(name)
}

/// `s` with every `\"` read as `"`.
pub open spec fn unescape_quotes(s: Seq<char>) -> Seq<char>
    decreases s.len(),
{
    if s.len() == 0 {
        Seq::empty()
    } else if s.len() >= 2 && s[0] == '\\' && s[1] == '"' {
        seq!['"'] + unescape_quotes(s.skip(2))
    } else {
        seq![s[0]] + unescape_quotes(s.skip(1))
    }
}

/// The file name of a `filename` parameter's value: trimmed, and where it is
/// quoted, its inside with escaped quotes read; `None` where it is empty.
pub open spec fn parse_filename_spec(value: Seq<char>) -> Option<Seq<char>> {
    let v = trim(value);
    if v.len() >= 2 && v[0] == '"' && v.last() == '"' {
        Some(unescape_quotes(v.subrange(1, v.len() - 1)))
    } else if v.len() == 0 {
        None
    } else {
        Some(v)
    }
}

fn unescape_quotes_exec(s: &[char]) -> (r: Vec<char>)
    ensures
        r@ == unescape_quotes(s@),
{
    let mut r: Vec<char> = Vec::new();
    let mut i: usize = 0;
    assert(s@.skip(0) == s@);
    while i < s.len()
        invariant
            i <= s@.len(),
            unescape_quotes(s@) == r@ + unescape_quotes(s@.skip(i as int)),
        decreases s@.len() - i,
    {
        let ghost t = s@.skip(i as int);
        if i + 1 < s.len() && s[i] == '\\' && s[i + 1] == '"' {
            assert(t.skip(2) == s@.skip(i + 2));
            assert(unescape_quotes(t) == seq!['"'] + unescape_quotes(t.skip(2)));
            r.push('"');
            assert(r@ + unescape_quotes(s@.skip(i + 2)) == (r@.drop_last() + seq!['"']) + unescape_quotes(t.skip(2)));
            i += 2;
        } else {
            assert(t.skip(1) == s@.skip(i + 1));
            assert(unescape_quotes(t) == seq![s@[i as int]] + unescape_quotes(t.skip(1)));
            r.push(s[i]);
            assert(r@ + unescape_quotes(s@.skip(i + 1)) == (r@.drop_last() + seq![s@[i as int]]) + unescape_quotes(t.skip(1)));
            i += 1;
        }
    }
    assert(s@.skip(i as int).len() == 0);
    assert(r@ + Seq::<char>::empty() == r@);
    r
}

fn parse_filename_chars(value: &[char]) -> (r: Option<Vec<char>>)
    ensures
        match parse_filename_spec(value@) {
            Some(n) => r matches Some(v) && v@ == n,
            None => r is None,
        },
{
    let v = trim_chars(value);
    let n = v.len();
    if n >= 2 && v[0] == '"' && v[n - 1] == '"' {
        let inner = sub_chars(v.as_slice(), 1, n - 1);
        Some(unescape_quotes_exec(inner.as_slice()))
    } else if n == 0 {
        None
    } else {
        Some(v)
    }
}

/// The file name of a `filename` parameter's value.
pub fn parse_filename(value: &str) -> (r: Option<String>)
    ensures
        match parse_filename_spec(value@) {
            Some(n) => r matches Some(s) && s@ == n,
            None => r is None,
        },
{
    let c = chars_of(value);
    match parse_filename_chars(c.as_slice()) {
        Some(v) => Some(string_of(v.as_slice())),
        None => None,
    }
}

/// The file name of a `filename*` parameter's value: what follows its last
/// `''`, percent-decoded and trimmed, where that is UTF-8 and not empty.
pub open spec fn extended_filename_spec(value: Seq<char>) -> Option<Seq<char>> {
    if contains(value, "''"@) {
        match percent_decode_utf8_spec(value.skip(last_index(value, "''"@) + 2)) {
            Some(d) => if trim(d).len() > 0 {
                Some(trim(d))
            } else {
                None
            },
            None => None,
        }
    } else {
        None
    }
}

/// The name chosen from the parameters `parts` of a `Content-Disposition`
/// header, where `fallback` is what an earlier `filename` gave: the first
/// usable `filename*` wins; otherwise the first `filename`, where not empty.
pub open spec fn disposition_name(parts: Seq<Seq<char>>, fallback: Option<Seq<char>>) -> Option<
    Seq<char>,
>
    decreases parts.len(),
{
    if parts.len() == 0 {
        match fallback {
            Some(f) => if f.len() > 0 {
                Some(f)
            } else {
                None
            },
            None => None,
        }
    } else {
        let p = trim(parts[0]);
        let rest = parts.drop_first();
        if contains(p, seq!['=']) {
            let k = first_index(p, seq!['=']);
            let name = to_ascii_lowercase(trim(p.take(k)));
            let value = trim(p.skip(k + 1));
            if name == "filename*"@ {
                match extended_filename_spec(value) {
                    Some(d) => Some(d),
                    None => disposition_name(rest, fallback),
                }
            } else if name == "filename"@ && fallback is None {
                disposition_name(rest, parse_filename_spec(value))
            } else {
                disposition_name(rest, fallback)
            }
        } else {
            disposition_name(rest, fallback)
        }
    }
}

/// The name that the `Content-Disposition` header `value` gives, before it
/// is made safe: its parameters are what follows each `;`.
pub open spec fn header_file_name_spec(value: Seq<char>) -> Option<Seq<char>> {
    disposition_name(split_char(value, ';').skip(1), None)
}

/// The characters of an optional character vector.
pub open spec fn opt_chars(o: Option<Vec<char>>) -> Option<Seq<char>> {
    match o {
        Some(v) => Some(v@),
        None => None,
    }
}

fn extended_filename(value: &[char]) -> (r: Option<Vec<char>>)
    ensures
        match extended_filename_spec(value@) {
            Some(n) => r matches Some(v) && v@ == n,
            None => r is None,
        },
{
    let quotes: [char; 2] = ['\'', '\''];
    proof {
        reveal_strlit("''");
        assert(quotes@ == "''"@);
    }
    let n = value.len();
    let j = match find_last(value, &quotes) {
        Some(j) => j,
        None => return None,
    };
    proof {
        lemma_last_index(value@, "''"@, j as int);
        assert(crate::text::occurs_at(value@, quotes@, j as int));
        assert(quotes@.len() == 2);
        assert(j + 2 <= value@.len());
    }
    let encoded = sub_chars(value, j + 2, n);
    assert(encoded@ == value@.skip(j + 2));
    let encoded = string_of(encoded.as_slice());
    let decoded = match percent_decode_utf8(encoded.as_str()) {
        Some(d) => d,
        None => return None,
    };
    let d = chars_of(decoded.as_str());
    let t = trim_chars(d.as_slice());
    if t.len() > 0 {
        Some(t)
    } else {
        None
    }
}

/// The name given by the `Content-Disposition` header `value`, before it is
/// made safe.
pub fn header_file_name(value: &str) -> (r: Option<String>)
    ensures
        match header_file_name_spec(value@) {
            Some(n) => r matches Some(s) && s@ == n,
            None => r is None,
        },
{
    let v = chars_of(value);
    let parts = split_char_exec(v.as_slice(), 0, ';');
    let ghost pv = chars_seqs(parts@);
    assert(v@.skip(0) == v@);
    proof {
        crate::text::lemma_split_char_nonempty(v@, ';');
    }
    let eq: [char; 1] = ['='];
    assert(eq@ == seq!['=']);
    let star: [char; 9] = ['f', 'i', 'l', 'e', 'n', 'a', 'm', 'e', '*'];
    let plain: [char; 8] = ['f', 'i', 'l', 'e', 'n', 'a', 'm', 'e'];
    proof {
        reveal_strlit("filename*");
        reveal_strlit("filename");
        assert(star@ == "filename*"@);
        assert(plain@ == "filename"@);
    }
    let mut fallback: Option<Vec<char>> = None;
    let mut i: usize = 1;
    while i < parts.len()
        invariant
            1 <= i <= parts@.len(),
            pv == chars_seqs(parts@),
            pv.len() == parts@.len(),
            eq@ == seq!['='],
            star@ == "filename*"@,
            plain@ == "filename"@,
            header_file_name_spec(value@) == disposition_name(pv.skip(1), None),
            disposition_name(pv.skip(1), None) == disposition_name(
                pv.skip(i as int),
                opt_chars(fallback),
            ),
        decreases parts@.len() - i,
    {
        let ghost t = pv.skip(i as int);
        assert(t[0] == parts@[i as int]@);
        assert(t.drop_first() == pv.skip(i + 1));
        let p = trim_chars(parts[i].as_slice());
        let plen = p.len();
        if let Some(k) = find_first(p.as_slice(), &eq) {
            proof {
                lemma_first_index(p@, seq!['='], k as int);
                assert(crate::text::occurs_at(p@, eq@, k as int));
                assert(k + 1 <= p@.len());
            }
            let name = sub_chars(p.as_slice(), 0, k);
            assert(name@ == p@.take(k as int));
            let name = trim_chars(name.as_slice());
            let value = sub_chars(p.as_slice(), k + 1, plen);
            assert(value@ == p@.skip(k + 1));
            let value = trim_chars(value.as_slice());
            let lower = to_ascii_lowercase_exec(name.as_slice());
            if chars_eq(lower.as_slice(), &star) {
                if let Some(d) = extended_filename(value.as_slice()) {
                    return Some(string_of(d.as_slice()));
                }
            } else if chars_eq(lower.as_slice(), &plain) && fallback.is_none() {
                fallback = parse_filename_chars(value.as_slice());
            }
        }
        i += 1;
    }
    assert(pv.skip(i as int).len() == 0);
    match fallback {
        Some(f) => if f.len() > 0 {
            Some(string_of(f.as_slice()))
        } else {
            None
        },
        None => None,
    }
}

/// The name under which the answer with the `Content-Disposition` header
/// `value` is saved: the header's name, made safe.
pub fn response_file_name(value: &str) -> (r: Option<String>)
    ensures
        match header_file_name_spec(value@) {
            Some(h) => r matches Some(s) && saved_name(s@, h),
            None => r is None,
        },
{
    match header_file_name(value) {
        Some(n) => Some(sanitize(n.as_str())),
        None => None,
    }
}

/// The last segment of the path `path`, where the path begins with `/`
/// (as `Url::path_segments` then `next_back` give it).
pub open spec fn last_path_segment(path: Seq<char>) -> Option<Seq<char>> {
    if path.len() > 0 && path[0] == '/' {
        Some(split_char(path.skip(1), '/').last())
    } else {
        None
    }
}

/// The name that the URL `url` gives, before it is made safe: the last
/// segment of its path, percent-decoded and trimmed, where not empty.
pub open spec fn url_file_name_spec(url: Seq<char>) -> Option<Seq<char>> {
    match spec_url_parse(url) {
        Some(u) => match last_path_segment(spec_url_path(u)) {
            Some(seg) => if seg.len() == 0 {
                None
            } else {
                match percent_decode_utf8_spec(seg) {
                    Some(d) => if trim(d).len() > 0 {
                        Some(trim(d))
                    } else {
                        None
                    },
                    None => None,
                }
            },
            None => None,
        },
        None => None,
    }
}

/// The name under which a download of `url` is saved when the answer names
/// none: the last segment of the URL's path, decoded and made safe.
pub fn file_name_from_url(url: &str) -> (r: Option<String>)
    ensures
        match url_file_name_spec(url@) {
            Some(n) => r matches Some(s) && saved_name(s@, n),
            None => r is None,
        },
{
    let parsed = match WebUrl::parse(url) {
        Some(u) => u,
        None => return None,
    };
    let path = chars_of(parsed.path().as_str());
    if path.len() == 0 || path[0] != '/' {
        return None;
    }
    let segments = split_char_exec(path.as_slice(), 1, '/');
    proof {
        crate::text::lemma_split_char_nonempty(path@.skip(1), '/');
    }
    let last = &segments[segments.len() - 1];
    assert(last@ == chars_seqs(segments@).last());
    if last.len() == 0 {
        return None;
    }
    let segment = string_of(last.as_slice());
    let decoded = match percent_decode_utf8(segment.as_str()) {
        Some(d) => d,
        None => return None,
    };
    let d = chars_of(decoded.as_str());
    let t = trim_chars(d.as_slice());
    if t.len() == 0 {
        return None;
    }
    let name = string_of(t.as_slice());
    Some(sanitize(name.as_str()))
}

/// Where a download is written.
#[derive(Debug, Clone, PartialEq, Eq)]
pub enum OutputTarget {
    /// Into the directory `dir`, under the name `file_name`.
    IntoDir { dir: String, file_name: String },
    /// To exactly this path.
    Exact(String),
    /// Into the current directory, under this name.
    Name(String),
}

/// Where a download named `file_name` (or `download` where it has no name)
/// is written, given the `output` asked for and whether it is a directory.
pub fn output_path(output: Option<&str>, output_is_dir: bool, file_name: Option<&str>) -> (r:
    OutputTarget)
    ensures
        ({
            let name = match file_name {
                Some(n) => n@,
                None => "download"@,
            };
            match output {
                Some(o) => if output_is_dir {
                    r matches OutputTarget::IntoDir { dir, file_name: f } && dir@ == o@ && f@ == name
                } else {
                    r matches OutputTarget::Exact(p) && p@ == o@
                },
                None => r matches OutputTarget::Name(n) && n@ == name,
            }
        }),
{
    let name = match file_name {
        Some(n) => n.to_string(),
        None => "download".to_string(),
    };
    match output {
        Some(o) => if output_is_dir {
            OutputTarget::IntoDir { dir: o.to_string(), file_name: name }
        } else {
            OutputTarget::Exact(o.to_string())
        },
        None => OutputTarget::Name(name),
    }
}

} // verus!
