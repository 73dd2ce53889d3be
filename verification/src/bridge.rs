//! The version bridge: lossless conversion between the legacy and the
//! modern container shape.
//!
//! Legacy to modern pairs each legacy record with its positional
//! counterpart from the embedded transaction and merges the two; a length
//! mismatch between the parallel arrays and the transaction fails the
//! whole conversion. Modern to legacy first resolves the one locktime the
//! reconstructed transaction must carry — the maximum of the inputs'
//! declared requirements, the fallback when none declares one — then
//! splits every record back into its legacy pair. In both directions the
//! version field crosses the signed/unsigned boundary bit-exactly and the
//! opaque key-value entries are copied untouched, so that converting a
//! freshly built modern container to legacy and back restores it exactly.

use vstd::prelude::*;

use crate::input::{lemma_input_split_with, lemma_input_with_split, Input};
use crate::output::{lemma_output_split_with, lemma_output_with_split, Output};
use crate::psbt::Psbt;
use crate::raw::unique_keys;
use crate::tx::Transaction;
use crate::v0::PsbtV0;
use crate::version::{
    lemma_version_bits_inverse, lemma_version_signed_inverse, version_bits, version_from_bits,
    version_signed, version_to_bits, PsbtVersion,
};

verus! {

/// Error converting a malformed legacy container to the modern shape.
#[derive(Clone, Copy, Debug, PartialEq, Eq, Structural)]
pub enum StructureError {
    /// The legacy input array and the embedded transaction's input list
    /// differ in length; carries the two counts (records, transaction).
    InputCountMismatch(usize, usize),
    /// The legacy output array and the embedded transaction's output list
    /// differ in length; carries the two counts (records, transaction).
    OutputCountMismatch(usize, usize),
}

/// True when no input of the sequence declares a locktime requirement.
pub open spec fn no_declared_locktime(s: Seq<Input>) -> bool {
    forall|i: int| 0 <= i < s.len() ==> (#[trigger] s[i]).required_locktime is None
}

/// The locktime a reconstructed transaction must carry: the maximum of
/// the inputs' declared requirements — the only value satisfying every
/// requirement at once — or the fallback when no input declares one.
pub open spec fn is_resolved_locktime(s: Seq<Input>, fallback: u32, lt: u32) -> bool {
    if no_declared_locktime(s) {
        lt == fallback
    } else {
        &&& exists|i: int| 0 <= i < s.len() && (#[trigger] s[i]).required_locktime == Some(lt)
        &&& forall|i: int|
            0 <= i < s.len() && (#[trigger] s[i]).required_locktime is Some
                ==> s[i].required_locktime->0 <= lt
    }
}

/// Law: the resolved locktime is uniquely determined — any two values
/// satisfying the resolution contract for the same inputs and fallback
/// are equal.
pub proof fn lemma_resolved_locktime_unique(s: Seq<Input>, fallback: u32, a: u32, b: u32)
    requires
        is_resolved_locktime(s, fallback, a),
        is_resolved_locktime(s, fallback, b),
    ensures
        a == b,
{
    if !no_declared_locktime(s) {
        let i = choose|i: int| 0 <= i < s.len() && (#[trigger] s[i]).required_locktime == Some(a);
        let j = choose|j: int| 0 <= j < s.len() && (#[trigger] s[j]).required_locktime == Some(b);
        assert(s[i].required_locktime->0 <= b);
        assert(s[j].required_locktime->0 <= a);
    }
}

/// How a modern container relates to the legacy container it was
/// converted from: records merged positionally, the version field carried
/// over bit-exactly, the embedded transaction's locktime kept as the
/// fallback, and every opaque entry copied untouched.
pub open spec fn modern_of_v0(v0: PsbtV0, p: Psbt) -> bool {
    &&& p.psbt_version == PsbtVersion::V2
    &&& p.xpub@ == v0.xpub@
    &&& p.tx_version as int == version_bits(v0.unsigned_tx.version as int)
    &&& p.fallback_locktime == v0.unsigned_tx.lock_time
    &&& p.inputs@.len() == v0.inputs@.len()
    &&& forall|i: int|
        0 <= i < v0.inputs@.len() ==> (#[trigger] p.inputs@[i]) == Input::spec_with(
            i as usize,
            v0.inputs@[i],
            v0.unsigned_tx.input@[i],
        )
    &&& p.outputs@.len() == v0.outputs@.len()
    &&& forall|i: int|
        0 <= i < v0.outputs@.len() ==> (#[trigger] p.outputs@[i]) == Output::spec_with(
            i as usize,
            v0.outputs@[i],
            v0.unsigned_tx.output@[i],
        )
    &&& p.proprietary@ == v0.proprietary@
    &&& p.unknown@ == v0.unknown@
}

/// How a legacy container relates to the modern container it was
/// converted from: records split positionally into the parallel arrays
/// and the embedded transaction, the version field carried over
/// bit-exactly, the locktime resolved across the inputs' requirements,
/// and every opaque entry copied untouched.
pub open spec fn v0_of_modern(p: Psbt, v0: PsbtV0) -> bool {
    &&& v0.version == 0
    &&& v0.xpub@ == p.xpub@
    &&& v0.unsigned_tx.version as int == version_signed(p.tx_version as int)
    &&& is_resolved_locktime(p.inputs@, p.fallback_locktime, v0.unsigned_tx.lock_time)
    &&& v0.inputs@.len() == p.inputs@.len()
    &&& v0.unsigned_tx.input@.len() == p.inputs@.len()
    &&& forall|i: int|
        0 <= i < p.inputs@.len() ==> (#[trigger] v0.inputs@[i]) == p.inputs@[i].spec_split().0
    &&& forall|i: int|
        0 <= i < p.inputs@.len() ==> (#[trigger] v0.unsigned_tx.input@[i])
            == p.inputs@[i].spec_split().1
    &&& v0.outputs@.len() == p.outputs@.len()
    &&& v0.unsigned_tx.output@.len() == p.outputs@.len()
    &&& forall|i: int|
        0 <= i < p.outputs@.len() ==> (#[trigger] v0.outputs@[i]) == p.outputs@[i].spec_split().0
    &&& forall|i: int|
        0 <= i < p.outputs@.len() ==> (#[trigger] v0.unsigned_tx.output@[i])
            == p.outputs@[i].spec_split().1
    &&& v0.proprietary@ == p.proprietary@
    &&& v0.unknown@ == p.unknown@
}

/// Field-wise equality of two legacy containers, comparing the sequences
/// and maps by their views.
pub open spec fn psbt_v0_equiv(a: PsbtV0, b: PsbtV0) -> bool {
    &&& a.version == b.version
    &&& a.xpub@ == b.xpub@
    &&& a.unsigned_tx.version == b.unsigned_tx.version
    &&& a.unsigned_tx.lock_time == b.unsigned_tx.lock_time
    &&& a.unsigned_tx.input@ == b.unsigned_tx.input@
    &&& a.unsigned_tx.output@ == b.unsigned_tx.output@
    &&& a.inputs@ == b.inputs@
    &&& a.outputs@ == b.outputs@
    &&& a.proprietary@ == b.proprietary@
    &&& a.unknown@ == b.unknown@
}

/// Field-wise equality of two modern containers, comparing the sequences
/// and maps by their views.
pub open spec fn psbt_equiv(a: Psbt, b: Psbt) -> bool {
    &&& a.psbt_version == b.psbt_version
    &&& a.xpub@ == b.xpub@
    &&& a.tx_version == b.tx_version
    &&& a.fallback_locktime == b.fallback_locktime
    &&& a.inputs@ == b.inputs@
    &&& a.outputs@ == b.outputs@
    &&& a.proprietary@ == b.proprietary@
    &&& a.unknown@ == b.unknown@
}

impl Psbt {
    /// Converts a legacy container to the modern shape.
    ///
    /// Each legacy input and output record is merged with its positional
    /// counterpart from the embedded transaction; the arrays must match
    /// the transaction's counts, and a mismatch fails the whole
    /// conversion rather than zipping to the shorter length. The signed
    /// transaction version is reinterpreted bit-for-bit into the unsigned
    /// field, the transaction's locktime becomes the fallback, and the
    /// xpub, proprietary and unknown maps carry through unchanged.
    pub fn from_v0(v0: PsbtV0) -> (r: Result<Psbt, StructureError>)
        ensures
            r is Ok <==> v0.inputs@.len() == v0.unsigned_tx.input@.len() && v0.outputs@.len()
                == v0.unsigned_tx.output@.len(),
            r is Ok ==> modern_of_v0(v0, r->Ok_0) && (v0.wf() ==> r->Ok_0.wf()),
            v0.inputs@.len() != v0.unsigned_tx.input@.len() ==> r == Err::<Psbt, StructureError>(
                StructureError::InputCountMismatch(
                    v0.inputs@.len() as usize,
                    v0.unsigned_tx.input@.len() as usize,
                ),
            ),
            v0.inputs@.len() == v0.unsigned_tx.input@.len() && v0.outputs@.len()
                != v0.unsigned_tx.output@.len() ==> r == Err::<Psbt, StructureError>(
                StructureError::OutputCountMismatch(
                    v0.outputs@.len() as usize,
                    v0.unsigned_tx.output@.len() as usize,
                ),
            ),
    {
        let ghost g = v0;
        let PsbtV0 {
            unsigned_tx,
            version: _,
            xpub,
            proprietary,
            unknown,
            inputs: v0_inputs,
            outputs: v0_outputs,
        } = v0;
        let Transaction { version, lock_time, input: tx_inputs, output: tx_outputs } = unsigned_tx;

        if v0_inputs.len() != tx_inputs.len() {
            return Err(StructureError::InputCountMismatch(v0_inputs.len(), tx_inputs.len()));
        }
        if v0_outputs.len() != tx_outputs.len() {
            return Err(StructureError::OutputCountMismatch(v0_outputs.len(), tx_outputs.len()));
        }
        let tx_version: u32 = version_to_bits(version);

        let mut rest_v0 = v0_inputs;
        let mut rest_tx = tx_inputs;
        let mut inputs: Vec<Input> = Vec::new();
        while rest_v0.len() > 0
            invariant
                g.inputs@.len() == g.unsigned_tx.input@.len(),
                inputs@.len() + rest_v0@.len() == g.inputs@.len(),
                rest_v0@ == g.inputs@.skip(inputs@.len() as int),
                rest_tx@ == g.unsigned_tx.input@.skip(inputs@.len() as int),
                forall|j: int|
                    0 <= j < inputs@.len() ==> (#[trigger] inputs@[j]) == Input::spec_with(
                        j as usize,
                        g.inputs@[j],
                        g.unsigned_tx.input@[j],
                    ),
            decreases rest_v0@.len(),
        {
            let idx: usize = inputs.len();
            let vi = rest_v0.remove(0);
            let ti = rest_tx.remove(0);
            proof {
                assert(vi == g.inputs@[idx as int]);
                assert(ti == g.unsigned_tx.input@[idx as int]);
                assert(rest_v0@ =~= g.inputs@.skip(idx as int + 1));
                assert(rest_tx@ =~= g.unsigned_tx.input@.skip(idx as int + 1));
            }
            inputs.push(Input::with(idx, vi, ti));
        }

        let mut rest_v0_out = v0_outputs;
        let mut rest_tx_out = tx_outputs;
        let mut outputs: Vec<Output> = Vec::new();
        while rest_v0_out.len() > 0
            invariant
                g.outputs@.len() == g.unsigned_tx.output@.len(),
                outputs@.len() + rest_v0_out@.len() == g.outputs@.len(),
                rest_v0_out@ == g.outputs@.skip(outputs@.len() as int),
                rest_tx_out@ == g.unsigned_tx.output@.skip(outputs@.len() as int),
                forall|j: int|
                    0 <= j < outputs@.len() ==> (#[trigger] outputs@[j]) == Output::spec_with(
                        j as usize,
                        g.outputs@[j],
                        g.unsigned_tx.output@[j],
                    ),
            decreases rest_v0_out@.len(),
        {
            let idx: usize = outputs.len();
            let vo = rest_v0_out.remove(0);
            let to = rest_tx_out.remove(0);
            proof {
                assert(vo == g.outputs@[idx as int]);
                assert(to == g.unsigned_tx.output@[idx as int]);
                assert(rest_v0_out@ =~= g.outputs@.skip(idx as int + 1));
                assert(rest_tx_out@ =~= g.unsigned_tx.output@.skip(idx as int + 1));
            }
            outputs.push(Output::with(idx, vo, to));
        }

        let built = Psbt {
            psbt_version: PsbtVersion::V2,
            xpub,
            tx_version,
            fallback_locktime: lock_time,
            inputs,
            outputs,
            proprietary,
            unknown,
        };
        proof {
            assert(modern_of_v0(g, built));
            if g.wf() {
                assert forall|i: int| 0 <= i < built.inputs@.len() implies (
                #[trigger] built.inputs@[i]).index == i && unique_keys(built.inputs@[i].proprietary@)
                    && unique_keys(built.inputs@[i].unknown@) by {
                    assert(built.inputs@[i] == Input::spec_with(
                        i as usize,
                        g.inputs@[i],
                        g.unsigned_tx.input@[i],
                    ));
                    assert(unique_keys(g.inputs@[i].proprietary@));
                    assert(unique_keys(g.inputs@[i].unknown@));
                }
                assert forall|i: int| 0 <= i < built.outputs@.len() implies (
                #[trigger] built.outputs@[i]).index == i && unique_keys(
                    built.outputs@[i].proprietary@,
                ) && unique_keys(built.outputs@[i].unknown@) by {
                    assert(built.outputs@[i] == Output::spec_with(
                        i as usize,
                        g.outputs@[i],
                        g.unsigned_tx.output@[i],
                    ));
                    assert(unique_keys(g.outputs@[i].proprietary@));
                    assert(unique_keys(g.outputs@[i].unknown@));
                }
                assert(built.wf());
            }
        }
        Ok(built)
    }

    /// Converts this modern container to the legacy shape.
    ///
    /// The conversion is total: the reconstructed transaction carries the
    /// resolved locktime — the maximum of the inputs' declared
    /// requirements, the fallback when none declares one — and the signed
    /// version reinterpreted bit-for-bit from the unsigned field. Every
    /// record is split into its legacy pair, and the xpub, proprietary
    /// and unknown maps carry through unchanged.
    pub fn into_v0(self) -> (r: PsbtV0)
        ensures
            v0_of_modern(self, r),
            self.wf() ==> r.wf(),
    {
        let ghost g = self;

        let mut declared: Option<u32> = None;
        let mut i: usize = 0;
        while i < self.inputs.len()
            invariant
                g == self,
                i <= self.inputs@.len(),
                declared is None ==> forall|j: int|
                    0 <= j < i ==> (#[trigger] self.inputs@[j]).required_locktime is None,
                declared is Some ==> exists|j: int|
                    0 <= j < i && (#[trigger] self.inputs@[j]).required_locktime == Some(
                        declared->0,
                    ),
                declared is Some ==> forall|j: int|
                    0 <= j < i && (#[trigger] self.inputs@[j]).required_locktime is Some
                        ==> self.inputs@[j].required_locktime->0 <= declared->0,
            decreases self.inputs@.len() - i,
        {
            let cur: Option<u32> = self.inputs[i].required_locktime;
            if let Some(lt) = cur {
                match declared {
                    None => {
                        declared = Some(lt);
                    },
                    Some(best) => {
                        if lt > best {
                            declared = Some(lt);
                        }
                    },
                }
            }
            i = i + 1;
        }
        let lock_time: u32 = match declared {
            Some(lt) => lt,
            None => self.fallback_locktime,
        };
        proof {
            assert(is_resolved_locktime(self.inputs@, self.fallback_locktime, lock_time));
        }

        let Psbt {
            psbt_version: _,
            xpub,
            tx_version,
            fallback_locktime: _,
            inputs,
            outputs,
            proprietary,
            unknown,
        } = self;
        let version: i32 = version_from_bits(tx_version);

        let mut rest_in = inputs;
        let mut v0_inputs: Vec<crate::input::InputV0> = Vec::new();
        let mut tx_inputs: Vec<crate::tx::TxIn> = Vec::new();
        while rest_in.len() > 0
            invariant
                v0_inputs@.len() == tx_inputs@.len(),
                v0_inputs@.len() + rest_in@.len() == g.inputs@.len(),
                rest_in@ == g.inputs@.skip(v0_inputs@.len() as int),
                forall|j: int|
                    0 <= j < v0_inputs@.len() ==> (#[trigger] v0_inputs@[j])
                        == g.inputs@[j].spec_split().0,
                forall|j: int|
                    0 <= j < tx_inputs@.len() ==> (#[trigger] tx_inputs@[j])
                        == g.inputs@[j].spec_split().1,
            decreases rest_in@.len(),
        {
            let ghost k = v0_inputs@.len() as int;
            let inp = rest_in.remove(0);
            proof {
                assert(inp == g.inputs@[k]);
                assert(rest_in@ =~= g.inputs@.skip(k + 1));
            }
            let (vi, ti) = inp.split();
            v0_inputs.push(vi);
            tx_inputs.push(ti);
        }

        let mut rest_out = outputs;
        let mut v0_outputs: Vec<crate::output::OutputV0> = Vec::new();
        let mut tx_outputs: Vec<crate::tx::TxOut> = Vec::new();
        while rest_out.len() > 0
            invariant
                v0_outputs@.len() == tx_outputs@.len(),
                v0_outputs@.len() + rest_out@.len() == g.outputs@.len(),
                rest_out@ == g.outputs@.skip(v0_outputs@.len() as int),
                forall|j: int|
                    0 <= j < v0_outputs@.len() ==> (#[trigger] v0_outputs@[j])
                        == g.outputs@[j].spec_split().0,
                forall|j: int|
                    0 <= j < tx_outputs@.len() ==> (#[trigger] tx_outputs@[j])
                        == g.outputs@[j].spec_split().1,
            decreases rest_out@.len(),
        {
            let ghost k = v0_outputs@.len() as int;
            let outp = rest_out.remove(0);
            proof {
                assert(outp == g.outputs@[k]);
                assert(rest_out@ =~= g.outputs@.skip(k + 1));
            }
            let (vo, to) = outp.split();
            v0_outputs.push(vo);
            tx_outputs.push(to);
        }

        let built = PsbtV0 {
            unsigned_tx: Transaction {
                version,
                lock_time,
                input: tx_inputs,
                output: tx_outputs,
            },
            version: PsbtVersion::V0.standard_u32(),
            xpub,
            proprietary,
            unknown,
            inputs: v0_inputs,
            outputs: v0_outputs,
        };
        proof {
            assert(v0_of_modern(g, built));
            if g.wf() {
                assert forall|i2: int| 0 <= i2 < built.inputs@.len() implies unique_keys(
                    (#[trigger] built.inputs@[i2]).proprietary@,
                ) && unique_keys(built.inputs@[i2].unknown@) by {
                    assert(built.inputs@[i2] == g.inputs@[i2].spec_split().0);
                    assert(unique_keys(g.inputs@[i2].proprietary@));
                    assert(unique_keys(g.inputs@[i2].unknown@));
                }
                assert forall|i2: int| 0 <= i2 < built.outputs@.len() implies unique_keys(
                    (#[trigger] built.outputs@[i2]).proprietary@,
                ) && unique_keys(built.outputs@[i2].unknown@) by {
                    assert(built.outputs@[i2] == g.outputs@[i2].spec_split().0);
                    assert(unique_keys(g.outputs@[i2].proprietary@));
                    assert(unique_keys(g.outputs@[i2].unknown@));
                }
                assert(built.wf());
            }
        }
        built
    }
}

/// Law: the round trip restores a freshly built container exactly. For
/// any transaction and any modern container built from it by
/// [`Psbt::with`], converting to the legacy shape and back yields a
/// container equal to the original in every field.
pub proof fn lemma_round_trip(tx: Transaction, m: Psbt, v0: PsbtV0, back: Psbt)
    requires
        m.is_with(tx, PsbtVersion::V2),
        v0_of_modern(m, v0),
        modern_of_v0(v0, back),
    ensures
        psbt_equiv(back, m),
{
    lemma_version_signed_inverse(m.tx_version as int);
    assert(back.tx_version == m.tx_version);

    assert forall|j: int| 0 <= j < m.inputs@.len() implies (
    #[trigger] m.inputs@[j]).required_locktime is None by {
        assert(m.inputs@[j].is_new(j as usize, tx.input@[j]));
    }
    assert(no_declared_locktime(m.inputs@));
    assert(back.fallback_locktime == m.fallback_locktime);

    assert forall|i: int| 0 <= i < m.inputs@.len() implies (#[trigger] back.inputs@[i])
        == m.inputs@[i] by {
        assert(m.inputs@[i].is_new(i as usize, tx.input@[i]));
        assert(back.inputs@[i] == Input::spec_with(
            i as usize,
            v0.inputs@[i],
            v0.unsigned_tx.input@[i],
        ));
        assert(v0.inputs@[i] == m.inputs@[i].spec_split().0);
        assert(v0.unsigned_tx.input@[i] == m.inputs@[i].spec_split().1);
        lemma_input_with_split(m.inputs@[i]);
    }
    assert(back.inputs@ =~= m.inputs@);

    assert forall|i: int| 0 <= i < m.outputs@.len() implies (#[trigger] back.outputs@[i])
        == m.outputs@[i] by {
        assert(m.outputs@[i].is_new(i as usize, tx.output@[i]));
        assert(back.outputs@[i] == Output::spec_with(
            i as usize,
            v0.outputs@[i],
            v0.unsigned_tx.output@[i],
        ));
        assert(v0.outputs@[i] == m.outputs@[i].spec_split().0);
        assert(v0.unsigned_tx.output@[i] == m.outputs@[i].spec_split().1);
        lemma_output_with_split(m.outputs@[i]);
    }
    assert(back.outputs@ =~= m.outputs@);
}

/// Law: the round trip restores a legacy container exactly, version tag
/// included, provided the container's recorded locktime already resolves
/// its inputs' declared requirements — that is, it is the maximum of the
/// declared locktimes, or free when none is declared. (A legacy container
/// whose recorded locktime fails some input's requirement comes back with
/// the resolved locktime instead.)
pub proof fn lemma_v0_round_trip(v0: PsbtV0, m: Psbt, back: PsbtV0)
    requires
        v0.version == 0,
        v0.inputs@.len() == v0.unsigned_tx.input@.len(),
        v0.outputs@.len() == v0.unsigned_tx.output@.len(),
        modern_of_v0(v0, m),
        v0_of_modern(m, back),
        is_resolved_locktime(m.inputs@, v0.unsigned_tx.lock_time, v0.unsigned_tx.lock_time),
    ensures
        psbt_v0_equiv(back, v0),
{
    lemma_version_bits_inverse(v0.unsigned_tx.version as int);
    assert(back.unsigned_tx.version == v0.unsigned_tx.version);

    lemma_resolved_locktime_unique(
        m.inputs@,
        v0.unsigned_tx.lock_time,
        back.unsigned_tx.lock_time,
        v0.unsigned_tx.lock_time,
    );
    assert(back.unsigned_tx.lock_time == v0.unsigned_tx.lock_time);

    assert forall|i: int| 0 <= i < v0.inputs@.len() implies (#[trigger] back.inputs@[i])
        == v0.inputs@[i] && back.unsigned_tx.input@[i] == v0.unsigned_tx.input@[i] by {
        assert(m.inputs@[i] == Input::spec_with(
            i as usize,
            v0.inputs@[i],
            v0.unsigned_tx.input@[i],
        ));
        lemma_input_split_with(i as usize, v0.inputs@[i], v0.unsigned_tx.input@[i]);
        assert(back.inputs@[i] == m.inputs@[i].spec_split().0);
        assert(back.unsigned_tx.input@[i] == m.inputs@[i].spec_split().1);
    }
    assert(back.inputs@ =~= v0.inputs@);
    assert(back.unsigned_tx.input@ =~= v0.unsigned_tx.input@);

    assert forall|i: int| 0 <= i < v0.outputs@.len() implies (#[trigger] back.outputs@[i])
        == v0.outputs@[i] && back.unsigned_tx.output@[i] == v0.unsigned_tx.output@[i] by {
        assert(m.outputs@[i] == Output::spec_with(
            i as usize,
            v0.outputs@[i],
            v0.unsigned_tx.output@[i],
        ));
        lemma_output_split_with(i as usize, v0.outputs@[i], v0.unsigned_tx.output@[i]);
        assert(back.outputs@[i] == m.outputs@[i].spec_split().0);
        assert(back.unsigned_tx.output@[i] == m.outputs@[i].spec_split().1);
    }
    assert(back.outputs@ =~= v0.outputs@);
    assert(back.unsigned_tx.output@ =~= v0.unsigned_tx.output@);
}

} // verus!
