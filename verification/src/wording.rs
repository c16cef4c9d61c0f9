//! The exact wording of every line the tool prints.
//!
//! Each line has a specification function over `Seq<char>` and a builder
//! that returns a `String` with that text.

use vstd::prelude::*;
use vstd::string::StringExecFns;

verus! {

/// The character that stands for a single decimal digit.
pub open spec fn digit(d: nat) -> char
    recommends
        d < 10,
{
    if d == 0 {
        '0'
    } else if d == 1 {
        '1'
    } else if d == 2 {
        '2'
    } else if d == 3 {
        '3'
    } else if d == 4 {
        '4'
    } else if d == 5 {
        '5'
    } else if d == 6 {
        '6'
    } else if d == 7 {
        '7'
    } else if d == 8 {
        '8'
    } else {
        '9'
    }
}

/// The decimal numeral of `n`, most significant digit first, without
/// leading zeros (`0` is written `"0"`).
pub open spec fn decimal(n: nat) -> Seq<char>
    decreases n,
{
    if n < 10 {
        seq![digit(n)]
    } else {
        decimal(n / 10).push(digit(n % 10))
    }
}

/// The digit that a character stands for; 0 for a character that is no
/// digit.
pub open spec fn digit_value(c: char) -> nat {
    if c == '1' {
        1
    } else if c == '2' {
        2
    } else if c == '3' {
        3
    } else if c == '4' {
        4
    } else if c == '5' {
        5
    } else if c == '6' {
        6
    } else if c == '7' {
        7
    } else if c == '8' {
        8
    } else if c == '9' {
        9
    } else {
        0
    }
}

/// The character is one of the ten digits.
pub open spec fn is_digit(c: char) -> bool {
    digit(digit_value(c)) == c
}

/// The number that a run of digits is read as.
pub open spec fn numeral_value(text: Seq<char>) -> nat
    decreases text.len(),
{
    if text.len() == 0 {
        0
    } else {
        10 * numeral_value(text.drop_last()) + digit_value(text.last())
    }
}

/// `Path not found: '<path>'`
pub open spec fn not_found_text(path: Seq<char>) -> Seq<char> {
    "Path not found: '"@ + path + "'"@
}

/// `Error: '<path>': <cause>`
pub open spec fn probe_error_text(path: Seq<char>, cause: Seq<char>) -> Seq<char> {
    "Error: '"@ + path + "': "@ + cause
}

/// `Cannot remove directory '<path>' without -r flag`
pub open spec fn directory_refused_text(path: Seq<char>) -> Seq<char> {
    "Cannot remove directory '"@ + path + "' without -r flag"@
}

/// `Error moving to trash: '<path>': <cause>`
pub open spec fn removal_error_text(path: Seq<char>, cause: Seq<char>) -> Seq<char> {
    "Error moving to trash: '"@ + path + "': "@ + cause
}

/// `Failed to move to trash: '<detail>'`, the cause given when the trash
/// itself turned the path down.
pub open spec fn delegate_cause_text(detail: Seq<char>) -> Seq<char> {
    "Failed to move to trash: '"@ + detail + "'"@
}

/// `Moved file to trash: '<path>' (size: <size> bytes)`
pub open spec fn moved_file_text(path: Seq<char>, size: nat) -> Seq<char> {
    "Moved file to trash: '"@ + path + "' (size: "@ + decimal(size) + " bytes)"@
}

/// `Moved directory to trash: '<path>'`
pub open spec fn moved_directory_text(path: Seq<char>) -> Seq<char> {
    "Moved directory to trash: '"@ + path + "'"@
}

/// The label of a directory entry: `directory` or `file`.
pub open spec fn label_text(is_dir: bool) -> Seq<char> {
    if is_dir {
        "directory"@
    } else {
        "file"@
    }
}

/// `  Trashed: '<path>' (<label>)`
pub open spec fn entry_text(path: Seq<char>, is_dir: bool) -> Seq<char> {
    "  Trashed: '"@ + path + "' ("@ + label_text(is_dir) + ")"@
}

/// The one-character string of a decimal digit.
fn digit_str(d: u64) -> (s: &'static str)
    requires
        d < 10,
    ensures
        s@ == seq![digit(d as nat)],
{
    proof {
        reveal_strlit("0");
        reveal_strlit("1");
        reveal_strlit("2");
        reveal_strlit("3");
        reveal_strlit("4");
        reveal_strlit("5");
        reveal_strlit("6");
        reveal_strlit("7");
        reveal_strlit("8");
        reveal_strlit("9");
    }
    let s = match d {
        0 => "0",
        1 => "1",
        2 => "2",
        3 => "3",
        4 => "4",
        5 => "5",
        6 => "6",
        7 => "7",
        8 => "8",
        _ => "9",
    };
    s
}

/// Appends the decimal numeral of `n` to `text`.
pub fn append_decimal(text: &mut String, n: u64)
    ensures
        final(text)@ == old(text)@ + decimal(n as nat),
    decreases n,
{
    if n >= 10 {
        append_decimal(text, n / 10);
    }
    text.append(digit_str(n % 10));
}

/// The line that reports a path that does not exist.
pub fn not_found_line(path: &str) -> (line: String)
    ensures
        line@ == not_found_text(path@),
{
    let mut line = String::from_str("Path not found: '");
    line.append(path);
    line.append("'");
    line
}

/// The line that reports a path whose metadata could not be read.
pub fn probe_error_line(path: &str, cause: &str) -> (line: String)
    ensures
        line@ == probe_error_text(path@, cause@),
{
    let mut line = String::from_str("Error: '");
    line.append(path);
    line.append("': ");
    line.append(cause);
    line
}

/// The line that refuses a directory for want of the recursive flag.
pub fn directory_refused_line(path: &str) -> (line: String)
    ensures
        line@ == directory_refused_text(path@),
{
    let mut line = String::from_str("Cannot remove directory '");
    line.append(path);
    line.append("' without -r flag");
    line
}

/// The line that reports a removal that failed, with its cause.
pub fn removal_error_line(path: &str, cause: &str) -> (line: String)
    ensures
        line@ == removal_error_text(path@, cause@),
{
    let mut line = String::from_str("Error moving to trash: '");
    line.append(path);
    line.append("': ");
    line.append(cause);
    line
}

/// The cause to report when the trash turned the path down.
pub fn delegate_cause(detail: &str) -> (cause: String)
    ensures
        cause@ == delegate_cause_text(detail@),
{
    let mut cause = String::from_str("Failed to move to trash: '");
    cause.append(detail);
    cause.append("'");
    cause
}

/// The line that confirms a trashed file, with its size in bytes.
pub fn moved_file_line(path: &str, size: u64) -> (line: String)
    ensures
        line@ == moved_file_text(path@, size as nat),
{
    let mut line = String::from_str("Moved file to trash: '");
    line.append(path);
    line.append("' (size: ");
    append_decimal(&mut line, size);
    line.append(" bytes)");
    line
}

/// The line that confirms a trashed directory.
pub fn moved_directory_line(path: &str) -> (line: String)
    ensures
        line@ == moved_directory_text(path@),
{
    let mut line = String::from_str("Moved directory to trash: '");
    line.append(path);
    line.append("'");
    line
}

/// The line that names one entry of a trashed directory.
pub fn entry_line(path: &str, is_dir: bool) -> (line: String)
    ensures
        line@ == entry_text(path@, is_dir),
{
    let mut line = String::from_str("  Trashed: '");
    line.append(path);
    line.append("' (");
    if is_dir {
        line.append("directory");
    } else {
        line.append("file");
    }
    line.append(")");
    line
}

} // verus!
