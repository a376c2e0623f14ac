//! Output file naming: where the file goes, and the numbered names tried
//! when a file of that name already exists.

use vstd::prelude::*;

verus! {

/// The decimal digit character for `d < 10`.
pub open spec fn digit_char(d: nat) -> char {
    if d == 0 {
        '0'
    } else if d == 1 {
        '1'
    } else if d == 2 {
        '2'
    } else if d == 3 {
        '3'
    } else if d == 4 {
        '4'
    } else if d == 5 {
        '5'
    } else if d == 6 {
        '6'
    } else if d == 7 {
        '7'
    } else if d == 8 {
        '8'
    } else {
        '9'
    }
}

/// The decimal digits of `n`, most significant first, without leading zeros.
pub open spec fn decimal(n: nat) -> Seq<char>
    decreases n,
{
    if n < 10 {
        seq![digit_char(n)]
    } else {
        decimal(n / 10).push(digit_char(n % 10))
    }
}

fn digit_str(d: u32) -> (r: &'static str)
    requires
        d < 10,
    ensures
        r@ == seq![digit_char(d as nat)],
{
    proof {
        reveal_strlit("0");
        reveal_strlit("1");
        reveal_strlit("2");
        reveal_strlit("3");
        reveal_strlit("4");
        reveal_strlit("5");
        reveal_strlit("6");
        reveal_strlit("7");
        reveal_strlit("8");
        reveal_strlit("9");
    }
    let r = match d {
        0 => "0",
        1 => "1",
        2 => "2",
        3 => "3",
        4 => "4",
        5 => "5",
        6 => "6",
        7 => "7",
        8 => "8",
        _ => "9",
    };
    assert(r@ =~= seq![digit_char(d as nat)]);
    r
}

fn append_decimal(s: &mut String, n: u32)
    ensures
        final(s)@ == old(s)@ + decimal(n as nat),
    decreases n,
{
    if n >= 10 {
        append_decimal(s, n / 10);
    }
    s.append(digit_str(n % 10));
    assert(final(s)@ =~= old(s)@ + decimal(n as nat));
}

/// The name tried at attempt `attempt`: the stem itself first, then
/// `stem (1)`, `stem (2)`, and so on.
pub open spec fn numbered_stem_spec(stem: Seq<char>, attempt: nat) -> Seq<char> {
    if attempt == 0 {
        stem
    } else {
        stem + " ("@ + decimal(attempt) + ")"@
    }
}

/// The file stem tried at attempt `attempt`.
pub fn numbered_stem(stem: &str, attempt: u32) -> (r: String)
    ensures
        r@ == numbered_stem_spec(stem@, attempt as nat),
{
    let mut r = String::from_str(stem);
    if attempt > 0 {
        r.append(" (");
        append_decimal(&mut r, attempt);
        r.append(")");
    }
    r
}

/// The file stem for `name` inside directory `dir`, adding a separator
/// unless `dir` already ends with one.
pub open spec fn output_stem_spec(dir: Seq<char>, name: Seq<char>) -> Seq<char> {
    if dir.last() == '/' {
        dir + name
    } else {
        dir + "/"@ + name
    }
}

/// Joins the output directory and the file name.
pub fn output_stem(dir: &str, name: &str) -> (r: String)
    requires
        dir@.len() > 0,
    ensures
        r@ == output_stem_spec(dir@, name@),
{
    let mut r = String::from_str(dir);
    if dir.get_char(dir.unicode_len() - 1) != '/' {
        r.append("/");
    }
    r.append(name);
    r
}

/// The file name written for a stem.
pub fn wav_file_name(stem: &str) -> (r: String)
    ensures
        r@ == stem@ + ".wav"@,
{
    let mut r = String::from_str(stem);
    r.append(".wav");
    r
}

} // verus!
