//! Splitting raw argument input into records.
//!
//! Arguments may come from an explicit list, from files, or from standard
//! input, as a byte stream cut into records by a single-byte delimiter: a
//! newline by default, or NUL when requested.  A delimiter closes the record
//! before it, so input ending in a delimiter does not produce a trailing empty
//! record, while two delimiters in a row do produce an empty one.  In newline
//! mode one carriage return is dropped from the end of each record, so that
//! input with two-byte line endings yields the same records as input with
//! bare newlines.

use vstd::prelude::*;

verus! {

/// The newline byte, the default record delimiter.
pub const NEWLINE: u8 = 10;

/// The carriage-return byte, dropped from the end of newline-delimited
/// records.
pub const CARRIAGE_RETURN: u8 = 13;

/// The NUL byte, the alternate record delimiter.
pub const NUL: u8 = 0;

/// `s` holds no occurrence of `d`.
pub open spec fn delimiter_free(s: Seq<u8>, d: u8) -> bool {
    forall|i: int| 0 <= i < s.len() ==> s[i] != d
}

/// The records of `s` under delimiter `d`.
pub open spec fn split_spec(s: Seq<u8>, d: u8) -> Seq<Seq<u8>>
    decreases s.len(),
{
    if s.len() == 0 {
        Seq::<Seq<u8>>::empty()
    } else if s[0] == d {
        seq![Seq::<u8>::empty()] + split_spec(s.skip(1), d)
    } else {
        let rest = split_spec(s.skip(1), d);
        if rest.len() == 0 {
            seq![seq![s[0]]]
        } else {
            seq![seq![s[0]] + rest[0]] + rest.skip(1)
        }
    }
}

/// `r` with one trailing carriage return dropped, when `d` is the newline
/// delimiter; `r` itself otherwise.
pub open spec fn chomp_spec(r: Seq<u8>, d: u8) -> Seq<u8> {
    if d == NEWLINE && r.len() >= 1 && r[r.len() - 1] == CARRIAGE_RETURN {
        r.take(r.len() - 1)
    } else {
        r
    }
}

/// The argument records of raw input `s` under delimiter `d`: the records of
/// the split, each with a trailing carriage return dropped in newline mode.
pub open spec fn records_spec(s: Seq<u8>, d: u8) -> Seq<Seq<u8>> {
    split_spec(s, d).map_values(|r: Seq<u8>| chomp_spec(r, d))
}

/// A delimiter-free, non-empty chunk splits into the one record that is the
/// chunk itself.
proof fn lemma_split_single_chunk(c: Seq<u8>, d: u8)
    requires
        delimiter_free(c, d),
        c.len() >= 1,
    ensures
        split_spec(c, d) == seq![c],
    decreases c.len(),
{
    if c.len() == 1 {
        assert(split_spec(c.skip(1), d) =~= Seq::<Seq<u8>>::empty());
        assert(seq![c[0]] =~= c);
        assert(split_spec(c, d) =~= seq![c]);
    } else {
        lemma_split_single_chunk(c.skip(1), d);
        assert(seq![c[0]] + c.skip(1) =~= c);
        assert(split_spec(c, d) =~= seq![c]);
    }
}

/// Splitting a delimiter-free chunk, a delimiter, and a remainder yields the
/// chunk as one record followed by the records of the remainder.
proof fn lemma_split_step(c: Seq<u8>, d: u8, rest: Seq<u8>)
    requires
        delimiter_free(c, d),
    ensures
        split_spec(c + seq![d] + rest, d) == seq![c] + split_spec(rest, d),
    decreases c.len(),
{
    let whole = c + seq![d] + rest;
    if c.len() == 0 {
        assert(whole =~= seq![d] + rest);
        assert(whole[0] == d);
        assert(whole.skip(1) =~= rest);
        assert(c =~= Seq::<u8>::empty());
        assert(split_spec(whole, d) =~= seq![c] + split_spec(rest, d));
    } else {
        lemma_split_step(c.skip(1), d, rest);
        assert(whole[0] == c[0]);
        assert(whole[0] != d);
        assert(whole.skip(1) =~= c.skip(1) + seq![d] + rest);
        let inner = split_spec(whole.skip(1), d);
        assert(inner == seq![c.skip(1)] + split_spec(rest, d));
        assert(inner.len() >= 1);
        assert(inner[0] == c.skip(1));
        assert(seq![whole[0]] + inner[0] =~= c);
        assert(inner.skip(1) =~= split_spec(rest, d));
        assert(split_spec(whole, d) =~= seq![c] + split_spec(rest, d));
    }
}

/// Cut `input` into its records under `delimiter`, without carriage-return
/// handling.
pub fn split_records(input: &Vec<u8>, delimiter: u8) -> (records: Vec<Vec<u8>>)
    ensures
        records.deep_view() == split_spec(input@, delimiter),
{
    let mut records: Vec<Vec<u8>> = Vec::new();
    let mut current: Vec<u8> = Vec::new();
    let mut i: usize = 0;
    proof {
        assert(records.deep_view() =~= Seq::<Seq<u8>>::empty());
        assert(current@ + input@.skip(0) =~= input@);
    }
    while i < input.len()
        invariant
            i <= input.len(),
            delimiter_free(current@, delimiter),
            records.deep_view() + split_spec(current@ + input@.skip(i as int), delimiter)
                == split_spec(input@, delimiter),
        decreases input.len() - i,
    {
        proof {
            assert(input@.skip(i as int) =~= seq![input@[i as int]] + input@.skip(i + 1));
        }
        if input[i] == delimiter {
            proof {
                assert(current@ + input@.skip(i as int) =~= (current@ + seq![delimiter])
                    + input@.skip(i + 1));
                lemma_split_step(current@, delimiter, input@.skip(i + 1));
            }
            let finished = current;
            current = Vec::new();
            let ghost previous = records.deep_view();
            records.push(finished);
            proof {
                assert(records.deep_view() =~~= previous + seq![finished@]);
                assert(records.deep_view() + split_spec(current@ + input@.skip(i + 1), delimiter)
                    =~= previous + (seq![finished@] + split_spec(input@.skip(i + 1), delimiter)));
                assert(current@ + input@.skip(i + 1) =~= input@.skip(i + 1));
            }
        } else {
            let b = input[i];
            let ghost before = current@;
            current.push(b);
            proof {
                assert(current@ + input@.skip(i + 1) =~= before + input@.skip(i as int));
                assert(delimiter_free(current@, delimiter));
            }
        }
        i = i + 1;
    }
    proof {
        assert(current@ + input@.skip(input@.len() as int) =~= current@);
    }
    if current.len() > 0 {
        proof {
            lemma_split_single_chunk(current@, delimiter);
        }
        let ghost previous = records.deep_view();
        let last = current;
        records.push(last);
        proof {
            assert(records.deep_view() =~~= previous + seq![last@]);
        }
    } else {
        proof {
            assert(split_spec(current@, delimiter) =~= Seq::<Seq<u8>>::empty());
            assert(records.deep_view() + Seq::<Seq<u8>>::empty() =~= records.deep_view());
        }
    }
    records
}

/// Drop one trailing carriage return from `record` when `delimiter` is the
/// newline byte.
pub fn chomp_record(record: Vec<u8>, delimiter: u8) -> (chomped: Vec<u8>)
    ensures
        chomped@ == chomp_spec(record@, delimiter),
{
    let mut chomped = record;
    let ghost unchomped = chomped@;
    if delimiter == NEWLINE && chomped.len() >= 1 && chomped[chomped.len() - 1]
        == CARRIAGE_RETURN {
        let _ = chomped.pop();
        proof {
            assert(chomped@ =~= chomp_spec(unchomped, delimiter));
        }
    }
    chomped
}

/// Cut raw argument input into argument records: split on `delimiter`, then
/// drop one trailing carriage return per record in newline mode.
pub fn argument_records(input: &Vec<u8>, delimiter: u8) -> (records: Vec<Vec<u8>>)
    ensures
        records.deep_view() == records_spec(input@, delimiter),
{
    let mut split = split_records(input, delimiter);
    let ghost full = split_spec(input@, delimiter);
    let mut records: Vec<Vec<u8>> = Vec::new();
    proof {
        assert(records.deep_view() =~= full.take(0).map_values(
            |r: Seq<u8>| chomp_spec(r, delimiter),
        ));
        assert(split.deep_view() =~= full.skip(0));
    }
    while split.len() > 0
        invariant
            records.len() <= full.len(),
            split.deep_view() == full.skip(records.len() as int),
            records.deep_view() == full.take(records.len() as int).map_values(
                |r: Seq<u8>| chomp_spec(r, delimiter),
            ),
        decreases split.len(),
    {
        let ghost idx = records.len() as int;
        let ghost before_split = split.deep_view();
        let ghost before_records = records.deep_view();
        let rec = split.remove(0);
        proof {
            assert(split.deep_view() =~~= before_split.skip(1));
            assert(before_split.skip(1) =~= full.skip(idx + 1));
            assert(rec@ =~= rec.deep_view());
            assert(full.skip(idx)[0] == full[idx]);
            assert(rec@ == full[idx]);
        }
        let chomped = chomp_record(rec, delimiter);
        records.push(chomped);
        proof {
            assert(records.deep_view() =~~= before_records + seq![chomped@]);
            assert(records.deep_view() =~= full.take(idx + 1).map_values(
                |r: Seq<u8>| chomp_spec(r, delimiter),
            ));
        }
    }
    proof {
        assert(full.skip(records.len() as int).len() == 0);
        assert(full.take(records.len() as int) =~= full);
    }
    records
}

} // verus!
