//! The graduate training program application of ehall: where its login must
//! end, how its answers are read, and how its course list is paged.

use vstd::prelude::*;
use crate::text::{chars_eq, chars_of, ends_with, has_prefix, has_suffix, starts_with};

verus! {

broadcast use vstd::string::group_string_axioms;

/// The number of courses asked for per page.
pub const COURSE_PAGE_SIZE: u64 = 200;

/// Why reading the training program failed.
#[derive(Debug, Clone, PartialEq, Eq)]
pub enum EhallError {
    /// The application's entry ended at this host, not at the application.
    UnexpectedHost(String),
    /// The student has no training program assigned.
    NoProgram,
    /// The program with this ID was not found.
    ProgramNotFound(String),
    /// The answer carried this application code, not `0`.
    AppCode(String),
    /// The answer held no data set for this action.
    MissingAction(String),
}

/// Whether `host` is the application's host, directly or through the Web VPN.
pub open spec fn is_app_host(host: Seq<char>) -> bool {
    host == "ehallapp.nju.edu.cn"@ || (has_prefix(host, "ehallapp-nju-edu-cn"@) && has_suffix(
        host,
        ".atrust.nju.edu.cn"@,
    ))
}

/// Checks where the application's entry ended: the session is ready only
/// on the application's host; a URL without host counts as the empty host.
pub fn check_app_host(final_host: Option<&str>) -> (r: Result<(), EhallError>)
    ensures
        match final_host {
            Some(h) => if is_app_host(h@) {
                r is Ok
            } else {
                r matches Err(EhallError::UnexpectedHost(s)) && s@ == h@
            },
            None => r matches Err(EhallError::UnexpectedHost(s)) && s@ == Seq::<char>::empty(),
        },
{
    let host = match final_host {
        Some(h) => h,
        None => return Err(EhallError::UnexpectedHost(String::new())),
    };
    let h = chars_of(host);
    let direct = chars_of("ehallapp.nju.edu.cn");
    let prefix = chars_of("ehallapp-nju-edu-cn");
    let suffix = chars_of(".atrust.nju.edu.cn");
    if chars_eq(h.as_slice(), direct.as_slice()) || (starts_with(h.as_slice(), prefix.as_slice())
        && ends_with(h.as_slice(), suffix.as_slice())) {
        Ok(())
    } else {
        Err(EhallError::UnexpectedHost(host.to_string()))
    }
}

/// The index of the data set of `action` among the data sets named `keys`,
/// in an answer whose application code is `code`.
pub fn select_action(code: &str, keys: &Vec<String>, action: &str) -> (r: Result<usize, EhallError>)
    ensures
        code@ != "0"@ ==> (r matches Err(EhallError::AppCode(c)) && c@ == code@),
        code@ == "0"@ ==> match r {
            Ok(i) => i < keys@.len() && keys@[i as int]@ == action@,
            Err(EhallError::MissingAction(a)) => a@ == action@ && forall|i: int|
                0 <= i < keys@.len() ==> (#[trigger] keys@[i])@ != action@,
            Err(_) => false,
        },
{
    let c = chars_of(code);
    let zero: [char; 1] = ['0'];
    proof {
        reveal_strlit("0");
        assert(zero@ == "0"@);
    }
    if !chars_eq(c.as_slice(), &zero) {
        return Err(EhallError::AppCode(code.to_string()));
    }
    let a = chars_of(action);
    let mut i: usize = 0;
    while i < keys.len()
        invariant
            i <= keys@.len(),
            a@ == action@,
            code@ == "0"@,
            forall|j: int| 0 <= j < i ==> (#[trigger] keys@[j])@ != action@,
        decreases keys@.len() - i,
    {
        let k = chars_of(keys[i].as_str());
        if chars_eq(k.as_slice(), a.as_slice()) {
            return Ok(i);
        }
        i += 1;
    }
    Err(EhallError::MissingAction(action.to_string()))
}

/// The first row of an answer, where it has one.
pub fn first_row<T>(rows: Vec<T>) -> (r: Option<T>)
    ensures
        rows@.len() > 0 ==> r == Some(rows@[0]),
        rows@.len() == 0 ==> r is None,
{
    let mut rows = rows;
    if rows.len() == 0 {
        None
    } else {
        Some(rows.remove(0))
    }
}

/// The program assigned to the student: the first assignment row.
pub fn assigned_program<T>(rows: Vec<T>) -> (r: Result<T, EhallError>)
    ensures
        rows@.len() > 0 ==> r == Ok::<T, EhallError>(rows@[0]),
        rows@.len() == 0 ==> r == Err::<T, EhallError>(EhallError::NoProgram),
{
    match first_row(rows) {
        Some(t) => Ok(t),
        None => Err(EhallError::NoProgram),
    }
}

/// The summary of the program `program_id`: the first summary row.
pub fn program_summary<T>(rows: Vec<T>, program_id: &str) -> (r: Result<T, EhallError>)
    ensures
        rows@.len() > 0 ==> r == Ok::<T, EhallError>(rows@[0]),
        rows@.len() == 0 ==> (r matches Err(EhallError::ProgramNotFound(p)) && p@ == program_id@),
{
    match first_row(rows) {
        Some(t) => Ok(t),
        None => Err(EhallError::ProgramNotFound(program_id.to_string())),
    }
}

/// The page of courses to ask for after page `page_number`, which brought
/// `row_count` rows, `fetched` in all so far, of the `total_size` announced;
/// `None` once the list is complete.
pub fn next_course_page(total_size: u64, fetched: usize, row_count: usize, page_number: u64) -> (r:
    Option<u64>)
    requires
        page_number < u64::MAX,
    ensures
        (total_size == 0 || fetched >= total_size || row_count == 0) ==> r is None,
        !(total_size == 0 || fetched >= total_size || row_count == 0) ==> r == Some(
            (page_number + 1) as u64,
        ),
{
    if total_size == 0 || fetched as u64 >= total_size || row_count == 0 {
        None
    } else {
        Some(page_number + 1)
    }
}

/// The lowercase hexadecimal digit of `n`, for `n` below 16.
pub open spec fn hex_digit(n: int) -> char {
    if n < 10 {
        (('0' as int) + n) as char
    } else {
        (('a' as int) + n - 10) as char
    }
}

/// How `serde_json` writes the character `c` inside a JSON string: the
/// quote and the backslash behind a backslash, the five control characters
/// that JSON names by a letter by that letter, the other control characters
/// below `0x20` as `\u00` and two lowercase hexadecimal digits, and every
/// other character as it is.
pub open spec fn json_escape(c: char) -> Seq<char> {
    if c == '"' {
        seq!['\\', '"']
    } else if c == '\\' {
        seq!['\\', '\\']
    } else if c == '\x08' {
        seq!['\\', 'b']
    } else if c == '\x0c' {
        seq!['\\', 'f']
    } else if c == '\n' {
        seq!['\\', 'n']
    } else if c == '\r' {
        seq!['\\', 'r']
    } else if c == '\t' {
        seq!['\\', 't']
    } else if (c as int) < 0x20 {
        seq!['\\', 'u', '0', '0', hex_digit((c as int) / 16), hex_digit((c as int) % 16)]
    } else {
        seq![c]
    }
}

/// The characters of `s`, each escaped as `serde_json` escapes it.
pub open spec fn json_escaped(s: Seq<char>) -> Seq<char>
    decreases s.len(),
{
    if s.len() == 0 {
        Seq::empty()
    } else {
        json_escaped(s.drop_last()) + json_escape(s.last())
    }
}

/// The `JSON` text of the string `s`, as `serde_json` writes it: the
/// escaped characters between double quotes.
pub open spec fn spec_json_string(s: Seq<char>) -> Seq<char> {
    seq!['"'] + json_escaped(s) + seq!['"']
}

/// `serde_json::to_string` of a string, which cannot fail: the quoted and
/// escaped JSON string.
#[verifier::external_body]
fn json_string(s: &str) -> (r: String)
    ensures
        r@ == spec_json_string(s@),
{
    serde_json::to_string(s).unwrap_or_default()
}

/// The course query of the program `program_id`: a one-element JSON array
/// that asks for the field `FADM` to equal the program ID.
pub open spec fn course_setting_spec(program_id: Seq<char>) -> Seq<char> {
    "[{\"name\":\"FADM\",\"value\":"@ + spec_json_string(program_id) + "}]"@
}

/// The `setting` field of the course query of the program `program_id`.
pub fn course_setting(program_id: &str) -> (r: String)
    ensures
        r@ == course_setting_spec(program_id@),
{
    let mut s = "[{\"name\":\"FADM\",\"value\":".to_string();
    let quoted = json_string(program_id);
    s.append(quoted.as_str());
    s.append("}]");
    s
}

} // verus!
