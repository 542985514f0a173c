//! The text that reports a verified transcript of contributions to a
//! parameter ceremony: how many contributions it holds, and the hash of each.
//! Reading the files and checking the parameters is done by the caller; this
//! module turns the hashes it got into the lines to print.

use vstd::prelude::*;
use vstd::string::*;

verus! {

/// The sixteen digits, in order of their value.
pub open spec fn digits() -> Seq<char> {
    seq!['0', '1', '2', '3', '4', '5', '6', '7', '8', '9', 'a', 'b', 'c', 'd', 'e', 'f']
}

/// `n` in decimal, without leading zeros.
pub open spec fn decimal(n: nat) -> Seq<char>
    decreases n,
{
    if n < 10 {
        seq![digits()[n as int]]
    } else {
        decimal(n / 10).push(digits()[(n % 10) as int])
    }
}

/// The bytes in hexadecimal, two lower-case digits for each byte.
pub open spec fn hex(bytes: Seq<u8>) -> Seq<char>
    decreases bytes.len(),
{
    if bytes.len() == 0 {
        Seq::empty()
    } else {
        hex(bytes.drop_last()).push(digits()[bytes.last() as int / 16]).push(
            digits()[bytes.last() as int % 16],
        )
    }
}

/// The line that announces `count` contributions.
pub open spec fn count_line(count: nat) -> Seq<char> {
    "Transcript contains "@ + decimal(count) + if count != 1 {
        " contributions:"@
    } else {
        " contribution:"@
    }
}

/// The line for the contribution at `index` with the given hash.
pub open spec fn contribution_line(index: nat, hash: Seq<u8>) -> Seq<char> {
    decimal(index) + ": "@ + hex(hash)
}

/// The digit of value `d`, as a string of one character.
fn digit(d: u8) -> (s: &'static str)
    requires
        d < 16,
    ensures
        s@ == seq![digits()[d as int]],
{
    proof {
        reveal_strlit("0");
        reveal_strlit("1");
        reveal_strlit("2");
        reveal_strlit("3");
        reveal_strlit("4");
        reveal_strlit("5");
        reveal_strlit("6");
        reveal_strlit("7");
        reveal_strlit("8");
        reveal_strlit("9");
        reveal_strlit("a");
        reveal_strlit("b");
        reveal_strlit("c");
        reveal_strlit("d");
        reveal_strlit("e");
        reveal_strlit("f");
    }
    let s = match d {
        0 => "0",
        1 => "1",
        2 => "2",
        3 => "3",
        4 => "4",
        5 => "5",
        6 => "6",
        7 => "7",
        8 => "8",
        9 => "9",
        10 => "a",
        11 => "b",
        12 => "c",
        13 => "d",
        14 => "e",
        _ => "f",
    };
    assert(s@ =~= seq![digits()[d as int]]);
    s
}

/// Appends `n` in decimal to `out`.
pub fn push_decimal(out: &mut String, n: usize)
    ensures
        final(out)@ == old(out)@ + decimal(n as nat),
    decreases n,
{
    if n >= 10 {
        push_decimal(out, n / 10);
    }
    out.append(digit((n % 10) as u8));
    assert(out@ =~= old(out)@ + decimal(n as nat));
}

/// Appends the bytes in hexadecimal to `out`.
pub fn push_hex(out: &mut String, bytes: &[u8])
    ensures
        final(out)@ == old(out)@ + hex(bytes@),
{
    let mut i: usize = 0;
    assert(out@ =~= old(out)@ + hex(bytes@.subrange(0, 0)));
    while i < bytes.len()
        invariant
            i <= bytes@.len(),
            out@ == old(out)@ + hex(bytes@.subrange(0, i as int)),
        decreases bytes@.len() - i,
    {
        let b = bytes[i];
        out.append(digit(b / 16));
        out.append(digit(b % 16));
        proof {
            let next = bytes@.subrange(0, i + 1);
            assert(next.drop_last() =~= bytes@.subrange(0, i as int));
            assert(next.last() == b);
            assert(out@ =~= old(out)@ + hex(next));
        }
        i = i + 1;
    }
    assert(bytes@.subrange(0, i as int) =~= bytes@);
}

/// The lines that report a verified transcript: an empty line, the number of
/// contributions, one line for each contribution with its index and its
/// hash, an empty line, and the closing line.
pub fn transcript_report(hashes: &Vec<[u8; 64]>) -> (lines: Vec<String>)
    ensures
        lines@.len() == hashes@.len() + 4,
        lines@[0]@ == Seq::<char>::empty(),
        lines@[1]@ == count_line(hashes@.len()),
        forall|i: int|
            0 <= i < hashes@.len() ==> (#[trigger] lines@[i + 2])@ == contribution_line(
                i as nat,
                hashes@[i]@,
            ),
        lines@[hashes@.len() as int + 2]@ == Seq::<char>::empty(),
        lines@[hashes@.len() as int + 3]@ == "Contributions verified"@,
{
    let mut lines: Vec<String> = Vec::new();
    lines.push(String::new());
    let mut heading = String::from_str("Transcript contains ");
    push_decimal(&mut heading, hashes.len());
    if hashes.len() != 1 {
        heading.append(" contributions:");
    } else {
        heading.append(" contribution:");
    }
    lines.push(heading);
    let mut i: usize = 0;
    while i < hashes.len()
        invariant
            i <= hashes@.len(),
            lines@.len() == i + 2,
            lines@[0]@ == Seq::<char>::empty(),
            lines@[1]@ == count_line(hashes@.len()),
            forall|j: int|
                0 <= j < i ==> (#[trigger] lines@[j + 2])@ == contribution_line(
                    j as nat,
                    hashes@[j]@,
                ),
        decreases hashes@.len() - i,
    {
        let mut line = String::new();
        push_decimal(&mut line, i);
        line.append(": ");
        push_hex(&mut line, hashes[i].as_slice());
        assert(line@ =~= contribution_line(i as nat, hashes@[i as int]@));
        lines.push(line);
        i = i + 1;
    }
    lines.push(String::new());
    lines.push(String::from_str("Contributions verified"));
    lines
}

/// The message for a file that could not be opened.
pub fn could_not_open(path: &str, why: &str) -> (message: String)
    ensures
        message@ == "Could not open `"@ + path@ + "`: "@ + why@,
{
    let mut message = String::from_str("Could not open `");
    message.append(path);
    message.append("`: ");
    message.append(why);
    message
}

/// The message for a file that could not be read.
pub fn could_not_read(path: &str, why: &str) -> (message: String)
    ensures
        message@ == "Could not read `"@ + path@ + "`: "@ + why@,
{
    let mut message = String::from_str("Could not read `");
    message.append(path);
    message.append("`: ");
    message.append(why);
    message
}

} // verus!
