//! Flag words: a 16-bit mask is decoded against an ordered table of named
//! bits. Each context (class, field, method, inner class) has its own table.
use crate::raw::ParseError;
use vstd::prelude::*;

verus! {

/// A named flag of some table, with the bit that stands for it.
pub trait AccessFlag: Sized + Copy {
    spec fn bit_spec(&self) -> u16;

    fn bit(&self) -> (r: u16)
        ensures
            r == self.bit_spec(),
    ;
}

/// The test that a flag's bit is set in `flags`.
pub open spec fn is_set<F: AccessFlag>(flags: u16) -> spec_fn(F) -> bool {
    |f: F| flags & f.bit_spec() != 0
}

/// The flags of `table` whose bit is set in `flags`, in the table's order.
pub open spec fn selected<F: AccessFlag>(flags: u16, table: Seq<F>) -> Seq<F> {
    table.filter(is_set(flags))
}

/// How the selection grows with the table: the last flag of the table comes
/// last in the selection, if its bit is set.
pub proof fn lemma_selected_step<F: AccessFlag>(flags: u16, table: Seq<F>)
    ensures
        table.len() == 0 ==> selected(flags, table) == Seq::<F>::empty(),
        table.len() > 0 && flags & table.last().bit_spec() != 0 ==> selected(flags, table)
            == selected(flags, table.drop_last()).push(table.last()),
        table.len() > 0 && flags & table.last().bit_spec() == 0 ==> selected(flags, table)
            == selected(flags, table.drop_last()),
{
    reveal(Seq::filter);
    if table.len() == 0 {
        assert(table =~= Seq::<F>::empty());
    }
}

/// The bits of all the flags in `list`, or-ed together.
pub open spec fn union_bits<F: AccessFlag>(list: Seq<F>) -> u16
    decreases list.len(),
{
    if list.len() == 0 {
        0
    } else {
        union_bits(list.drop_last()) | list.last().bit_spec()
    }
}

/// What decoding `flags` against `table` gives: the selected flags where
/// their bits make up the whole of `flags`, else the word is refused.
pub open spec fn decoded<F: AccessFlag>(flags: u16, table: Seq<F>) -> Result<Seq<F>, ParseError> {
    if union_bits(selected(flags, table)) == flags {
        Ok(selected(flags, table))
    } else {
        Err(ParseError::UnknownFlags(flags))
    }
}

/// `b` has exactly one bit set.
pub open spec fn is_single_bit(b: u16) -> bool {
    b == 0x0001 || b == 0x0002 || b == 0x0004 || b == 0x0008 || b == 0x0010 || b == 0x0020 || b
        == 0x0040 || b == 0x0080 || b == 0x0100 || b == 0x0200 || b == 0x0400 || b == 0x0800 || b
        == 0x1000 || b == 0x2000 || b == 0x4000 || b == 0x8000
}

/// Every flag of `table` stands for exactly one bit.
pub open spec fn single_bits<F: AccessFlag>(table: Seq<F>) -> bool {
    forall|i: int| 0 <= i < table.len() ==> is_single_bit(#[trigger] table[i].bit_spec())
}

/// Decodes `flags` against `table`.
pub fn decode_flags<F: AccessFlag>(flags: u16, table: &Vec<F>) -> (r: Result<Vec<F>, ParseError>)
    ensures
        match decoded(flags, table@) {
            Ok(list) => r is Ok && r->Ok_0@ == list,
            Err(e) => r == Err::<Vec<F>, ParseError>(e),
        },
{
    let mut ret: Vec<F> = Vec::new();
    let mut wants: u16 = 0;
    let mut i: usize = 0;
    proof {
        lemma_selected_step(flags, table@.take(0));
    }
    while i < table.len()
        invariant
            i <= table.len(),
            ret@ == selected(flags, table@.take(i as int)),
            wants == union_bits(ret@),
        decreases table.len() - i,
    {
        let value = table[i];
        let bit = value.bit();
        proof {
            assert(table@.take(i + 1).drop_last() =~= table@.take(i as int));
            lemma_selected_step(flags, table@.take(i + 1));
        }
        if flags & bit != 0 {
            let ghost before = ret@;
            ret.push(value);
            wants = wants | bit;
            proof {
                assert(ret@.drop_last() =~= before);
            }
        }
        i += 1;
    }
    proof {
        assert(table@.take(table.len() as int) =~= table@);
    }
    if flags != wants {
        Err(ParseError::UnknownFlags(flags))
    } else {
        Ok(ret)
    }
}

/// Over a table of single bits, the bits of the selected flags are the bits of
/// the word that the table names.
pub proof fn lemma_selected_bits<F: AccessFlag>(flags: u16, table: Seq<F>)
    requires
        single_bits(table),
    ensures
        union_bits(selected(flags, table)) == flags & union_bits(table),
    decreases table.len(),
{
    lemma_selected_step(flags, table);
    if table.len() == 0 {
        assert(flags & 0 == 0) by (bit_vector);
    } else {
        let rest = table.drop_last();
        let b = table.last().bit_spec();
        let u = union_bits(rest);
        let w = union_bits(selected(flags, rest));
        assert(single_bits(rest)) by {
            assert forall|i: int| 0 <= i < rest.len() implies is_single_bit(
                #[trigger] rest[i].bit_spec(),
            ) by {
                assert(rest[i] == table[i]);
            }
        }
        lemma_selected_bits(flags, rest);
        assert(is_single_bit(b));
        if flags & b != 0 {
            assert(selected(flags, rest).push(table.last()).drop_last() =~= selected(flags, rest));
            assert((flags & u) | b == flags & (u | b)) by (bit_vector)
                requires
                    flags & b != 0,
                    b == 0x0001 || b == 0x0002 || b == 0x0004 || b == 0x0008 || b == 0x0010 || b
                        == 0x0020 || b == 0x0040 || b == 0x0080 || b == 0x0100 || b == 0x0200 || b
                        == 0x0400 || b == 0x0800 || b == 0x1000 || b == 0x2000 || b == 0x4000 || b
                        == 0x8000,
            ;
        } else {
            assert(flags & u == flags & (u | b)) by (bit_vector)
                requires
                    flags & b == 0,
            ;
        }
    }
}

/// A word made only of bits that a table of single bits names is decoded, to
/// exactly the flags whose bits are set, in the table's order, and the bits of
/// those flags or-ed together give the word back. A word with any other bit is
/// refused.
pub proof fn lemma_decode_round_trip<F: AccessFlag>(flags: u16, table: Seq<F>)
    requires
        single_bits(table),
    ensures
        flags & !union_bits(table) == 0 ==> decoded(flags, table) == Ok::<Seq<F>, ParseError>(
            selected(flags, table),
        ) && union_bits(selected(flags, table)) == flags,
        flags & !union_bits(table) != 0 ==> decoded(flags, table) == Err::<Seq<F>, ParseError>(
            ParseError::UnknownFlags(flags),
        ),
{
    lemma_selected_bits(flags, table);
    let m = union_bits(table);
    assert((flags & m == flags) <==> (flags & !m == 0)) by (bit_vector);
}

} // verus!
