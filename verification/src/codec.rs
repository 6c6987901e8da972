//! Decimal numbers and length-prefixed records: the text form in which the
//! library writes structured values down.
//!
//! A record is a list of texts. Each text is written as its length in
//! decimal, a colon, and the text itself, so that a text may hold any
//! character and nothing needs escaping.

use crate::text::{
    decimal, digit_char, digit_value, push_char, push_decimal, texts, value_of_digit,
};
use vstd::prelude::*;

verus! {

/// The number that `s` writes in decimal: one digit or more, nothing else.
pub open spec fn decimal_value(s: Seq<char>) -> Option<nat>
    decreases s.len(),
{
    if s.len() == 0 {
        None
    } else {
        match digit_value(s.last()) {
            None => None,
            Some(d) => if s.len() == 1 {
                Some(d)
            } else {
                match decimal_value(s.drop_last()) {
                    Some(v) => Some(v * 10 + d),
                    None => None,
                }
            },
        }
    }
}

/// Reading what `decimal` wrote gives the number back.
pub proof fn lemma_decimal_round_trip(n: nat)
    ensures
        decimal_value(decimal(n)) == Some(n),
        decimal(n).len() >= 1,
        forall|i: int| 0 <= i < decimal(n).len() ==> digit_value(#[trigger] decimal(n)[i]) is Some,
    decreases n,
{
    if n < 10 {
        assert(digit_value(digit_char(n)) == Some(n));
        assert(decimal(n) =~= seq![digit_char(n)]);
    } else {
        lemma_decimal_round_trip(n / 10);
        let s = decimal(n);
        assert(s.drop_last() =~= decimal(n / 10));
        assert(s.last() == digit_char(n % 10));
        assert(digit_value(digit_char(n % 10)) == Some(n % 10));
        assert forall|i: int| 0 <= i < s.len() implies digit_value(#[trigger] s[i]) is Some by {
            if i < s.len() - 1 {
                assert(s[i] == decimal(n / 10)[i]);
            }
        }
    }
}

/// A number is at least what any shorter beginning of its digits writes.
proof fn lemma_decimal_value_grows(s: Seq<char>, k: int)
    requires
        1 <= k <= s.len(),
        decimal_value(s) is Some,
    ensures
        decimal_value(s.take(k)) is Some,
        decimal_value(s.take(k))->Some_0 <= decimal_value(s)->Some_0,
    decreases s.len(),
{
    if k == s.len() {
        assert(s.take(k) =~= s);
    } else {
        assert(s.drop_last().take(k) =~= s.take(k));
        lemma_decimal_value_grows(s.drop_last(), k);
    }
}

/// Reads the number that `chars` writes from `from` up to `to`, where it is
/// one and fits.
pub fn parse_decimal(chars: &Vec<char>, from: usize, to: usize) -> (r: Option<u64>)
    requires
        from <= to <= chars.len(),
    ensures
        r is Some <==> decimal_value(chars@.subrange(from as int, to as int)) is Some
            && decimal_value(chars@.subrange(from as int, to as int))->Some_0 <= u64::MAX,
        r is Some ==> decimal_value(chars@.subrange(from as int, to as int)) == Some(
            r->Some_0 as nat,
        ),
{
    let ghost s = chars@.subrange(from as int, to as int);
    if from == to {
        return None;
    }
    let mut value: u64 = 0;
    let mut i: usize = from;
    while i < to
        invariant
            from <= i <= to <= chars.len(),
            s == chars@.subrange(from as int, to as int),
            i > from ==> decimal_value(s.take(i - from)) == Some(value as nat),
            i == from ==> value == 0,
        decreases to - i,
    {
        let ghost upto = s.take(i - from + 1);
        proof {
            assert(upto.last() == chars@[i as int]);
            assert(upto.drop_last() =~= s.take(i - from));
        }
        let d = match value_of_digit(chars[i]) {
            Some(d) => d,
            None => {
                proof {
                    if decimal_value(s) is Some {
                        lemma_decimal_value_grows(s, i - from + 1);
                    }
                }
                return None;
            },
        };
        let next = match value.checked_mul(10) {
            Some(tens) => tens.checked_add(d as u64),
            None => None,
        };
        match next {
            Some(v) => {
                value = v;
            },
            None => {
                proof {
                    assert(decimal_value(upto) == Some((value * 10 + d) as nat));
                    if decimal_value(s) is Some {
                        lemma_decimal_value_grows(s, i - from + 1);
                    }
                }
                return None;
            },
        }
        i += 1;
    }
    proof {
        assert(s.take(to - from) =~= s);
    }
    Some(value)
}

/// One text of a record, written down.
pub open spec fn frame_one(atom: Seq<char>) -> Seq<char> {
    decimal(atom.len()).push(':') + atom
}

/// A record, written down: its texts one after the other.
pub open spec fn frame(atoms: Seq<Seq<char>>) -> Seq<char>
    decreases atoms.len(),
{
    if atoms.len() == 0 {
        Seq::empty()
    } else {
        frame_one(atoms[0]) + frame(atoms.drop_first())
    }
}

/// The place of the first colon in `text`.
pub open spec fn first_colon(text: Seq<char>) -> Option<nat>
    decreases text.len(),
{
    if text.len() == 0 {
        None
    } else if text[0] == ':' {
        Some(0)
    } else {
        match first_colon(text.drop_first()) {
            Some(k) => Some(k + 1),
            None => None,
        }
    }
}

/// The first text that `text` writes, and what follows it.
pub open spec fn take_atom(text: Seq<char>) -> Option<(Seq<char>, Seq<char>)> {
    match first_colon(text) {
        None => None,
        Some(k) => match decimal_value(text.take(k as int)) {
            None => None,
            Some(n) => if k + 1 + n <= text.len() {
                Some((text.subrange(k + 1 as int, k + 1 + n as int), text.skip(k + 1 + n as int)))
            } else {
                None
            },
        },
    }
}

/// The record that `text` writes, if it writes one.
pub open spec fn unframe(text: Seq<char>) -> Option<Seq<Seq<char>>>
    decreases text.len(),
{
    if text.len() == 0 {
        Some(Seq::empty())
    } else {
        match take_atom(text) {
            None => None,
            Some((atom, rest)) => if rest.len() < text.len() {
                match unframe(rest) {
                    Some(more) => Some(seq![atom] + more),
                    None => None,
                }
            } else {
                None
            },
        }
    }
}

/// The first colon lies within the text, and nothing before it is a colon.
proof fn lemma_first_colon(text: Seq<char>)
    ensures
        match first_colon(text) {
            Some(k) => k < text.len() && text[k as int] == ':' && forall|i: int|
                0 <= i < k ==> text[i] != ':',
            None => forall|i: int| 0 <= i < text.len() ==> text[i] != ':',
        },
    decreases text.len(),
{
    if text.len() > 0 && text[0] != ':' {
        let rest = text.drop_first();
        lemma_first_colon(rest);
        match first_colon(rest) {
            Some(k) => {
                assert forall|i: int| 0 <= i < k + 1 implies text[i] != ':' by {
                    if i > 0 {
                        assert(text[i] == rest[i - 1]);
                    }
                }
            },
            None => {
                assert forall|i: int| 0 <= i < text.len() implies text[i] != ':' by {
                    if i > 0 {
                        assert(text[i] == rest[i - 1]);
                    }
                }
            },
        }
    }
}

/// The first colon is where the first colon is.
proof fn lemma_first_colon_at(text: Seq<char>, k: int)
    requires
        0 <= k < text.len(),
        text[k] == ':',
        forall|i: int| 0 <= i < k ==> text[i] != ':',
    ensures
        first_colon(text) == Some(k as nat),
{
    lemma_first_colon(text);
}

/// A text that was written down is read back, and the rest is untouched.
pub proof fn lemma_take_atom(atom: Seq<char>, rest: Seq<char>)
    ensures
        take_atom(frame_one(atom) + rest) == Some((atom, rest)),
{
    let digits = decimal(atom.len());
    let text = frame_one(atom) + rest;
    lemma_decimal_round_trip(atom.len());
    let k = digits.len() as int;
    assert(text[k] == ':');
    assert forall|i: int| 0 <= i < k implies text[i] != ':' by {
        assert(text[i] == digits[i]);
        assert(digit_value(digits[i]) is Some);
    }
    lemma_first_colon_at(text, k);
    assert(text.take(k) =~= digits);
    assert(text.subrange(k + 1, k + 1 + atom.len()) =~= atom);
    assert(text.skip(k + 1 + atom.len()) =~= rest);
}

/// A record that was written down is read back as it was.
pub proof fn lemma_frame_round_trip(atoms: Seq<Seq<char>>)
    ensures
        unframe(frame(atoms)) == Some(atoms),
    decreases atoms.len(),
{
    if atoms.len() > 0 {
        let rest = frame(atoms.drop_first());
        lemma_take_atom(atoms[0], rest);
        lemma_frame_round_trip(atoms.drop_first());
        lemma_decimal_round_trip(atoms[0].len());
        assert(frame(atoms).len() > 0);
        assert(seq![atoms[0]] + atoms.drop_first() =~= atoms);
    }
}

/// Writes a record down.
pub fn write_record(atoms: &Vec<String>) -> (text: String)
    ensures
        text@ == frame(texts(atoms@)),
{
    let mut out = String::new();
    let mut j: usize = 0;
    proof {
        assert(texts(atoms@).skip(0) =~= texts(atoms@));
        assert(out@ + frame(texts(atoms@)) =~= frame(texts(atoms@)));
    }
    while j < atoms.len()
        invariant
            j <= atoms.len(),
            out@ + frame(texts(atoms@).skip(j as int)) == frame(texts(atoms@)),
        decreases atoms.len() - j,
    {
        let ghost before = out@;
        let ghost rest = texts(atoms@).skip(j as int);
        let length = atoms[j].as_str().unicode_len();
        push_decimal(&mut out, length as u64);
        push_char(&mut out, ':');
        out.append(atoms[j].as_str());
        proof {
            assert(rest[0] == atoms[j as int]@);
            assert(rest.drop_first() =~= texts(atoms@).skip(j + 1));
            assert(out@ =~= before + frame_one(atoms[j as int]@));
            assert(out@ + frame(rest.drop_first()) =~= before + frame(rest));
        }
        j += 1;
    }
    proof {
        assert(texts(atoms@).skip(atoms.len() as int) =~= Seq::empty());
        assert(out@ + Seq::<char>::empty() =~= out@);
    }
    out
}

/// Reads a record, if `text` writes one.
pub fn read_record(text: &str) -> (r: Option<Vec<String>>)
    ensures
        r is Some <==> unframe(text@) is Some,
        r is Some ==> texts(r->Some_0@) == unframe(text@)->Some_0,
{
    let chars = crate::text::chars_of(text);
    let mut atoms: Vec<String> = Vec::new();
    let mut pos: usize = 0;
    proof {
        assert(chars@.skip(0) =~= chars@);
        assert(texts(atoms@) =~= Seq::<Seq<char>>::empty());
        if unframe(chars@) is Some {
            assert(texts(atoms@) + unframe(chars@)->Some_0 =~= unframe(chars@)->Some_0);
        }
    }
    while pos < chars.len()
        invariant
            pos <= chars.len(),
            chars@ == text@,
            unframe(text@) is Some <==> unframe(chars@.skip(pos as int)) is Some,
            unframe(text@) is Some ==> unframe(text@)->Some_0 == texts(atoms@) + unframe(
                chars@.skip(pos as int),
            )->Some_0,
        decreases chars.len() - pos,
    {
        let ghost rest = chars@.skip(pos as int);
        proof {
            lemma_first_colon(rest);
        }
        // The length runs up to the first colon.
        let mut colon: usize = pos;
        while colon < chars.len() && chars[colon] != ':'
            invariant
                pos <= colon <= chars.len(),
                forall|i: int| pos <= i < colon ==> chars@[i] != ':',
            decreases chars.len() - colon,
        {
            colon += 1;
        }
        if colon == chars.len() {
            proof {
                if first_colon(rest) is Some {
                    let k = first_colon(rest)->Some_0 as int;
                    assert(rest[k] == chars@[pos + k]);
                }
            }
            return None;
        }
        proof {
            assert(rest[colon - pos] == ':');
            assert forall|i: int| 0 <= i < colon - pos implies rest[i] != ':' by {
                assert(rest[i] == chars@[pos + i]);
            }
            lemma_first_colon_at(rest, colon - pos);
            assert(rest.take(colon - pos) =~= chars@.subrange(pos as int, colon as int));
        }
        let length = match parse_decimal(&chars, pos, colon) {
            Some(n) => n,
            None => {
                return None;
            },
        };
        let start: usize = colon + 1;
        if length > (chars.len() - start) as u64 {
            return None;
        }
        let end: usize = start + length as usize;
        let mut atom = String::new();
        let mut k: usize = start;
        while k < end
            invariant
                start <= k <= end <= chars.len(),
                atom@ == chars@.subrange(start as int, k as int),
            decreases end - k,
        {
            push_char(&mut atom, chars[k]);
            proof {
                assert(chars@.subrange(start as int, k as int).push(chars@[k as int])
                    =~= chars@.subrange(start as int, k + 1));
            }
            k += 1;
        }
        proof {
            let n = length as int;
            let c = colon - pos;
            assert(rest.subrange(c + 1, c + 1 + n) =~= chars@.subrange(start as int, end as int));
            assert(rest.skip(c + 1 + n) =~= chars@.skip(end as int));
            assert(take_atom(rest) == Some((atom@, chars@.skip(end as int))));
        }
        let ghost old_atoms = atoms@;
        atoms.push(atom);
        proof {
            assert(texts(atoms@) =~= texts(old_atoms).push(atoms@.last()@));
            if unframe(text@) is Some {
                let more = unframe(chars@.skip(end as int))->Some_0;
                assert(texts(old_atoms) + (seq![atoms@.last()@] + more) =~= texts(atoms@) + more);
            }
        }
        pos = end;
    }
    proof {
        assert(chars@.skip(chars.len() as int) =~= Seq::empty());
        assert(texts(atoms@) + Seq::<Seq<char>>::empty() =~= texts(atoms@));
    }
    Some(atoms)
}

} // verus!
