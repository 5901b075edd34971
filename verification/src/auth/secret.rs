//! Credentials kept in a `KEY=value` file, read literally: no variable of the
//! environment is expanded.

use vstd::prelude::*;
use crate::text::{
    chars_eq, chars_of, chars_seqs, contains, find_first, first_index, lemma_first_index,
    occurs_at, split_char, split_char_exec, string_of, sub_chars, trim, trim_chars,
};

verus! {

/// `v` without one pair of surrounding `"` or `'`, where it has one.
pub open spec fn unquote(v: Seq<char>) -> Seq<char> {
    if v.len() >= 2 && v[0] == '"' && v.last() == '"' {
        v.subrange(1, v.len() - 1)
    } else if v.len() >= 2 && v[0] == '\'' && v.last() == '\'' {
        v.subrange(1, v.len() - 1)
    } else {
        v
    }
}

/// The value that the first of `lines` setting `name` gives it: the line's
/// text after its first `=`, trimmed and unquoted.
pub open spec fn secret_in_lines(lines: Seq<Seq<char>>, name: Seq<char>) -> Option<Seq<char>>
    decreases lines.len(),
{
    if lines.len() == 0 {
        None
    } else {
        let line = lines[0];
        if contains(line, seq!['=']) && trim(line.take(first_index(line, seq!['=']))) == name {
            Some(unquote(trim(line.skip(first_index(line, seq!['=']) + 1))))
        } else {
            secret_in_lines(lines.drop_first(), name)
        }
    }
}

/// The value of `name` in the text `secret`.
pub open spec fn secret_value_spec(secret: Seq<char>, name: Seq<char>) -> Option<Seq<char>> {
    secret_in_lines(split_char(secret, '\n'), name)
}

/// The value that the `KEY=value` text `secret` gives `name`, taken as it is
/// written, without one pair of surrounding quotes.
pub fn secret_value(secret: &str, name: &str) -> (r: Option<String>)
    ensures
        match secret_value_spec(secret@, name@) {
            Some(v) => r matches Some(s) && s@ == v,
            None => r is None,
        },
{
    let s = chars_of(secret);
    let n = chars_of(name);
    let lines = split_char_exec(s.as_slice(), 0, '\n');
    assert(s@.skip(0) == s@);
    let ghost lv = chars_seqs(lines@);
    let eq: [char; 1] = ['='];
    assert(eq@ == seq!['=']);
    let mut i: usize = 0;
    assert(lv.skip(0) == lv);
    while i < lines.len()
        invariant
            i <= lines@.len(),
            lv == chars_seqs(lines@),
            lv.len() == lines@.len(),
            n@ == name@,
            eq@ == seq!['='],
            secret_value_spec(secret@, name@) == secret_in_lines(lv.skip(i as int), name@),
        decreases lines@.len() - i,
    {
        let ghost t = lv.skip(i as int);
        assert(t[0] == lines@[i as int]@);
        assert(t.drop_first() == lv.skip(i + 1));
        let line = &lines[i];
        if let Some(k) = find_first(line.as_slice(), &eq) {
            proof {
                lemma_first_index(line@, seq!['='], k as int);
                assert(occurs_at(line@, eq@, k as int));
            }
            let len = line.len();
            let key = sub_chars(line.as_slice(), 0, k);
            assert(key@ == line@.take(k as int));
            let key = trim_chars(key.as_slice());
            if chars_eq(key.as_slice(), n.as_slice()) {
                let value = sub_chars(line.as_slice(), k + 1, len);
                assert(value@ == line@.skip(k + 1));
                let v = trim_chars(value.as_slice());
                let m = v.len();
                if m >= 2 && ((v[0] == '"' && v[m - 1] == '"') || (v[0] == '\'' && v[m - 1] == '\'')) {
                    let inner = sub_chars(v.as_slice(), 1, m - 1);
                    return Some(string_of(inner.as_slice()));
                }
                return Some(string_of(v.as_slice()));
            }
        }
        i += 1;
    }
    None
}

} // verus!
