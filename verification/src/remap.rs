//! The channel remap transform.
//!
//! A remap rule copies `length` bytes starting at `start` in the input
//! payload to `new_start` in a freshly zeroed output payload of the
//! protocol-maximum length. Rules apply in configured order; later rules
//! overwrite earlier ones where destination ranges overlap. A rule whose
//! source range does not fit in the input payload is skipped; the other
//! rules still apply.

use vstd::prelude::*;

verus! {

/// The protocol-maximum universe payload length.
pub const UNIVERSE_MAX: usize = 512;

/// One remap rule: copy `length` bytes from `start` in the input to
/// `new_start` in the output.
#[derive(Clone, Copy, Debug, PartialEq, Eq, Structural)]
pub struct Remapping {
    /// First byte of the source range in the input payload.
    pub start: usize,
    /// Number of bytes to copy.
    pub length: usize,
    /// First byte of the destination range in the output payload.
    pub new_start: usize,
}

impl Remapping {
    /// The source range fits in an input payload of length `input_len`.
    pub open spec fn in_range(self, input_len: nat) -> bool {
        self.start + self.length <= input_len
    }

    /// The destination range fits in the protocol-maximum payload. A rule
    /// that breaks this is a configuration error, rejected when the action
    /// table is built.
    pub open spec fn dest_ok(self) -> bool {
        self.new_start + self.length <= UNIVERSE_MAX
    }
}

/// `buf` after one rule: the destination range holds the source range of
/// `input`, the rest is unchanged; a rule whose source range does not fit
/// leaves `buf` as it is.
pub open spec fn apply_rule(buf: Seq<u8>, input: Seq<u8>, rule: Remapping) -> Seq<u8> {
    if rule.in_range(input.len()) {
        Seq::new(
            buf.len(),
            |i: int|
                if rule.new_start <= i < rule.new_start + rule.length {
                    input[i - rule.new_start + rule.start]
                } else {
                    buf[i]
                },
        )
    } else {
        buf
    }
}

/// The remapped payload: every rule applied in order to a zeroed buffer
/// of the protocol-maximum length.
pub open spec fn remap_result(rules: Seq<Remapping>, input: Seq<u8>) -> Seq<u8>
    decreases rules.len(),
{
    if rules.len() == 0 {
        Seq::new(UNIVERSE_MAX as nat, |i: int| 0u8)
    } else {
        apply_rule(remap_result(rules.drop_last(), input), input, rules.last())
    }
}

/// The remapped payload always has the protocol-maximum length.
pub proof fn lemma_remap_result_len(rules: Seq<Remapping>, input: Seq<u8>)
    ensures
        remap_result(rules, input).len() == UNIVERSE_MAX,
    decreases rules.len(),
{
    if rules.len() > 0 {
        lemma_remap_result_len(rules.drop_last(), input);
    }
}

/// A single in-range rule yields a buffer that holds the copied range at
/// its destination and zero everywhere else.
pub proof fn lemma_remap_single_rule(rule: Remapping, input: Seq<u8>)
    requires
        rule.in_range(input.len()),
    ensures
        remap_result(seq![rule], input).len() == UNIVERSE_MAX,
        forall|i: int|
            rule.new_start <= i < rule.new_start + rule.length && 0 <= i < UNIVERSE_MAX
                ==> remap_result(seq![rule], input)[i] == input[i - rule.new_start + rule.start],
        forall|i: int|
            0 <= i < UNIVERSE_MAX && !(rule.new_start <= i < rule.new_start + rule.length)
                ==> remap_result(seq![rule], input)[i] == 0u8,
{
    let empty = Seq::<Remapping>::empty();
    assert(seq![rule].drop_last() =~= empty);
    assert(seq![rule].last() == rule);
    assert(remap_result(empty, input) == Seq::new(UNIVERSE_MAX as nat, |i: int| 0u8));
    assert(remap_result(seq![rule], input) == apply_rule(remap_result(empty, input), input, rule));
}

/// A rule whose source range does not fit in the input payload has no
/// effect: the remaining rules yield the same payload without it.
pub proof fn lemma_remap_skips_out_of_range(rules: Seq<Remapping>, input: Seq<u8>, j: int)
    requires
        0 <= j < rules.len(),
        !rules[j].in_range(input.len()),
    ensures
        remap_result(rules, input) == remap_result(rules.remove(j), input),
    decreases rules.len(),
{
    if j == rules.len() - 1 {
        assert(rules.remove(j) =~= rules.drop_last());
    } else {
        lemma_remap_skips_out_of_range(rules.drop_last(), input, j);
        assert(rules.remove(j).drop_last() =~= rules.drop_last().remove(j));
        assert(rules.remove(j).last() == rules.last());
    }
}

/// Replace `data` with the remapped payload: a zeroed buffer of the
/// protocol-maximum length with every rule's source range copied to its
/// destination, in order. Rules whose source range does not fit in the
/// input are skipped; the rest still apply.
pub fn remap_universe(remappings: &Vec<Remapping>, data: &mut Vec<u8>)
    requires
        forall|j: int| 0 <= j < remappings@.len() ==> (#[trigger] remappings@[j]).dest_ok(),
    ensures
        final(data)@ == remap_result(remappings@, old(data)@),
{
    let ghost input = data@;
    let mut buffer: Vec<u8> = vec![0u8; UNIVERSE_MAX];
    assert(buffer@ =~= remap_result(Seq::<Remapping>::empty(), input));
    let mut r: usize = 0;
    while r < remappings.len()
        invariant
            forall|j: int| 0 <= j < remappings@.len() ==> (#[trigger] remappings@[j]).dest_ok(),
            r <= remappings@.len(),
            data@ == input,
            buffer@ == remap_result(remappings@.take(r as int), input),
            buffer@.len() == UNIVERSE_MAX,
        decreases remappings@.len() - r,
    {
        let rule = remappings[r];
        let ghost before = buffer@;
        if rule.length <= data.len() && rule.start <= data.len() - rule.length {
            let mut k: usize = 0;
            while k < rule.length
                invariant
                    rule.in_range(input.len()),
                    rule.dest_ok(),
                    k <= rule.length,
                    input.len() <= usize::MAX,
                    data@ == input,
                    buffer@.len() == UNIVERSE_MAX,
                    forall|i: int|
                        rule.new_start <= i < rule.new_start + k ==> buffer@[i] == input[i
                            - rule.new_start + rule.start],
                    forall|i: int|
                        0 <= i < UNIVERSE_MAX && !(rule.new_start <= i < rule.new_start + k)
                            ==> buffer@[i] == before[i],
                decreases rule.length - k,
            {
                buffer[rule.new_start + k] = data[rule.start + k];
                k += 1;
            }
            assert(buffer@ =~= apply_rule(before, input, rule));
        } else {
            assert(!rule.in_range(input.len()));
        }
        proof {
            assert(remappings@.take(r + 1).drop_last() =~= remappings@.take(r as int));
            assert(remappings@.take(r + 1).last() == rule);
        }
        r += 1;
    }
    assert(remappings@.take(remappings@.len() as int) =~= remappings@);
    *data = buffer;
}

} // verus!
