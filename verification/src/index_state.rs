//! The validator of the index-state record, which holds the position of a
//! ring of [`SUM_OF_INFO_CELLS`] slots.
//!
//! The record is two bytes, `[position, capacity]`. The validator tells the
//! shape of a transaction by the records that are governed by its code:
//!
//! * none among the consumed records: a *creation*. The group must create
//!   exactly one record, which must name a slot of the ring and the ring's
//!   capacity;
//! * one among the consumed records and one among the created records: an
//!   *update*. The created record of the group must be as at creation, and
//!   its position must be the one that follows the consumed position, the
//!   first slot following the last;
//! * one among the consumed records and none among the created records: the
//!   ring leaves the ledger, which only one [`Variant`] accepts.
//!
//! The capacity is the size of the ring in both variants. What the variants
//! settle is how much a ring may change over its life, see [`Variant`].
//!
//! [`verdict`] gives the outcome for every transaction and [`validate`]
//! computes it.

use vstd::prelude::*;
use crate::constants::{INDEX_STATE_CELL_DATA_LEN, SUM_OF_INFO_CELLS};
use crate::error::{Error, SysError};
use crate::transaction::{Script, ScriptView, Source, Transaction, TransactionView};
use vstd::std_specs::convert::FromSpec;

verus! {

/// How much a ring may change over its life.
#[derive(Debug, PartialEq, Eq, Copy, Clone, Structural)]
pub enum Variant {
    /// The ring is bound for good. A creation must carry, as the arguments
    /// of its type script, the reference of the first record that the
    /// transaction consumes, so that no second ring can be made with the
    /// same identity. An update must consume a record of exactly two bytes.
    /// A transaction that consumes the record without creating its
    /// successor is rejected.
    Fixed,
    /// The ring may be taken over and given up. A creation is not bound to
    /// what the transaction consumes. An update reads of the consumed record
    /// only the position, which must be a slot of the ring, so that a
    /// record written under another layout can be taken over. A transaction
    /// that consumes the record without creating a successor is accepted:
    /// the ring leaves the ledger.
    Extended,
}

/// The position that follows `position`: the next slot, and the first slot
/// after the last one.
pub open spec fn next_position(position: u8) -> int {
    if position == SUM_OF_INFO_CELLS - 1 {
        0
    } else {
        position + 1
    }
}

/// A well-formed index-state record: two bytes, a slot of the ring, the
/// capacity of the ring.
pub open spec fn well_formed(data: Seq<u8>) -> bool {
    &&& data.len() == INDEX_STATE_CELL_DATA_LEN
    &&& data[0] < SUM_OF_INFO_CELLS
    &&& data[1] == SUM_OF_INFO_CELLS
}

/// What [`check_index_state_data`] returns: the verdict on the data of a
/// created index-state record. The length is judged before the position,
/// the position before the capacity.
pub open spec fn data_verdict(data: Seq<u8>) -> Result<(), Error> {
    if data.len() != INDEX_STATE_CELL_DATA_LEN {
        Err(Error::IndexStateDataLenError)
    } else if data[0] >= SUM_OF_INFO_CELLS {
        Err(Error::IndexStateOutOfBound)
    } else if data[1] != SUM_OF_INFO_CELLS {
        Err(Error::InfoAmountError)
    } else {
        Ok(())
    }
}

/// The length that an update asks of the consumed record: two bytes where
/// the ring is fixed, at least the position where it is not.
pub open spec fn input_length_valid(variant: Variant, input: Seq<u8>) -> bool {
    match variant {
        Variant::Fixed => input.len() == INDEX_STATE_CELL_DATA_LEN,
        Variant::Extended => input.len() > 0,
    }
}

/// The verdict on an update from the data `input` to the data `output`.
/// The lengths of both are judged before anything that they hold; then the
/// created record as at creation; then the step from the consumed position
/// to the created one.
pub open spec fn transition_verdict(variant: Variant, input: Seq<u8>, output: Seq<u8>) -> Result<
    (),
    Error,
> {
    if !input_length_valid(variant, input) {
        Err(Error::IndexStateDataLenError)
    } else {
        match data_verdict(output) {
            Err(error) => Err(error),
            Ok(()) => if output[0] == next_position(input[0]) {
                Ok(())
            } else {
                Err(Error::IndexIncreaseError)
            },
        }
    }
}

/// What [`check_index_state_cell_data`] returns: the data of the first
/// record of `source`, if it is there and well formed.
pub open spec fn checked_cell_data(tx: TransactionView, source: Source) -> Result<Seq<u8>, Error> {
    match tx.cell_data(0, source) {
        Err(fault) => Err(Error::from_spec(fault)),
        Ok(data) => match data_verdict(data) {
            Err(error) => Err(error),
            Ok(()) => Ok(data),
        },
    }
}

/// What [`check_index_state_cells_data`] returns: the verdict on the data
/// of an update, which are those of the first consumed and of the first
/// created record of the group.
pub open spec fn update_verdict(tx: TransactionView, variant: Variant) -> Result<(), Error> {
    match tx.cell_data(0, Source::GroupInput) {
        Err(fault) => Err(Error::from_spec(fault)),
        Ok(input) => match tx.cell_data(0, Source::GroupOutput) {
            Err(fault) => Err(Error::from_spec(fault)),
            Ok(output) => transition_verdict(variant, input, output),
        },
    }
}

/// What [`load_output_type_script`] returns: the type script of the first
/// created record of the group.
pub open spec fn output_type_script(tx: TransactionView) -> Result<ScriptView, Error> {
    match tx.cell_type(0, Source::GroupOutput) {
        Ok(Some(script)) => Ok(script),
        _ => Err(Error::IndexStateTypeNotExist),
    }
}

/// What [`check_cells_type_scripts_valid`] returns: whether the group has a
/// first record with a type script on both sides.
pub open spec fn type_scripts_verdict(tx: TransactionView) -> Result<(), Error> {
    if tx.cell_type(0, Source::GroupOutput) matches Ok(Some(_)) && tx.cell_type(
        0,
        Source::GroupInput,
    ) matches Ok(Some(_)) {
        Ok(())
    } else {
        Err(Error::IndexStateTypeNotExist)
    }
}

/// What [`check_anchor`] returns: whether a ring whose identity is `args`
/// may be created. A fixed ring must be named after the first record that
/// the transaction consumes.
pub open spec fn anchor_verdict(tx: TransactionView, variant: Variant, args: Seq<u8>) -> Result<
    (),
    Error,
> {
    match variant {
        Variant::Extended => Ok(()),
        Variant::Fixed => match tx.input_out_point(0, Source::Input) {
            Err(fault) => Err(Error::from_spec(fault)),
            Ok(out_point) => if args == out_point {
                Ok(())
            } else {
                Err(Error::InvalidArgument)
            },
        },
    }
}

/// What [`check_index_state_creation`] returns: the verdict on a creation.
/// The group must create exactly one record; the record must have a type
/// script and be well formed; and its identity must be one that the
/// variant admits.
pub open spec fn creation_verdict(tx: TransactionView, variant: Variant) -> Result<(), Error> {
    if tx.cells(Source::GroupOutput).len() != 1 {
        Err(Error::IndexStateTypeNotExist)
    } else {
        match output_type_script(tx) {
            Err(error) => Err(error),
            Ok(script) => match checked_cell_data(tx, Source::GroupOutput) {
                Err(error) => Err(error),
                Ok(_) => anchor_verdict(tx, variant, script.args),
            },
        }
    }
}

/// Whether the transaction lets the ring leave the ledger: it consumes a
/// record that the validator's code governs and creates none, and the
/// variant allows it.
pub open spec fn recycles(tx: TransactionView, variant: Variant) -> bool {
    &&& variant == Variant::Extended
    &&& tx.type_script_exists(Source::Input)
    &&& !tx.type_script_exists(Source::Output)
}

/// A legal creation: the group creates exactly one record, which has a
/// type script and is well formed; where the ring is fixed, the arguments
/// of that type script are the reference of the first record that the
/// transaction consumes.
pub open spec fn legal_creation(tx: TransactionView, variant: Variant) -> bool {
    &&& tx.cells(Source::GroupOutput).len() == 1
    &&& tx.cell_type(0, Source::GroupOutput) matches Ok(Some(script))
    &&& tx.cell_data(0, Source::GroupOutput) matches Ok(output)
    &&& well_formed(output)
    &&& variant == Variant::Fixed ==> tx.input_out_point(0, Source::Input) == Ok::<
        Seq<u8>,
        SysError,
    >(script.args)
}

/// A legal update: the group has a first record with a type script on both
/// sides; the consumed one has the length that the variant asks and a
/// position in the ring; the created one is well formed; and its position
/// follows the consumed one.
pub open spec fn legal_update(tx: TransactionView, variant: Variant) -> bool {
    &&& tx.cell_type(0, Source::GroupOutput) matches Ok(Some(_))
    &&& tx.cell_type(0, Source::GroupInput) matches Ok(Some(_))
    &&& tx.cell_data(0, Source::GroupInput) matches Ok(input)
    &&& tx.cell_data(0, Source::GroupOutput) matches Ok(output)
    &&& input_length_valid(variant, input)
    &&& input[0] < SUM_OF_INFO_CELLS
    &&& well_formed(output)
    &&& output[0] == next_position(input[0])
}

/// The transactions that the validator accepts: with no consumed record of
/// its code, the legal creations; with a consumed record of its code, the
/// legal updates and, where the variant allows it, those that give the
/// ring up.
pub open spec fn accepts(tx: TransactionView, variant: Variant) -> bool {
    if !tx.type_script_exists(Source::Input) {
        legal_creation(tx, variant)
    } else {
        recycles(tx, variant) || legal_update(tx, variant)
    }
}

/// The verdict of the validator on a transaction: `Ok` on those that it
/// [`accepts`], and else the first error in the order of its checks.
pub open spec fn verdict(tx: TransactionView, variant: Variant) -> Result<(), Error> {
    if !tx.type_script_exists(Source::Input) {
        creation_verdict(tx, variant)
    } else if recycles(tx, variant) {
        Ok(())
    } else {
        match type_scripts_verdict(tx) {
            Err(error) => Err(error),
            Ok(()) => update_verdict(tx, variant),
        }
    }
}

/// Judges a transaction for the index-state record that the validator governs.
pub fn validate(tx: &Transaction, variant: Variant) -> (result: Result<(), Error>)
    ensures
        result == verdict(tx@, variant),
        result is Ok <==> accepts(tx@, variant),
{
    if tx.check_type_script_exists(Source::Input) {
        let gives_up = match variant {
            Variant::Extended => !tx.check_type_script_exists(Source::Output),
            Variant::Fixed => false,
        };
        if gives_up {
            // The ring leaves the ledger.
            Ok(())
        } else {
            match check_cells_type_scripts_valid(tx) {
                Ok(()) => check_index_state_cells_data(tx, variant),
                Err(error) => Err(error),
            }
        }
    } else {
        check_index_state_creation(tx, variant)
    }
}

/// Judges a creation: the group creates exactly one record, which has a
/// type script, is well formed and has an identity that the variant admits.
/// Each failure gives its error, in that order: `IndexStateTypeNotExist`
/// for the first two, those of [`check_index_state_cell_data`], those of
/// [`check_anchor`].
pub fn check_index_state_creation(tx: &Transaction, variant: Variant) -> (result: Result<
    (),
    Error,
>)
    ensures
        result == creation_verdict(tx@, variant),
{
    if tx.len(Source::GroupOutput) != 1 {
        return Err(Error::IndexStateTypeNotExist);
    }
    let output_type_script = match load_output_type_script(tx) {
        Ok(script) => script,
        Err(error) => {
            return Err(error);
        },
    };
    match check_index_state_cell_data(tx, Source::GroupOutput) {
        Ok(_) => check_anchor(tx, variant, output_type_script),
        Err(error) => Err(error),
    }
}

/// Judges the identity of a created ring. A fixed ring must carry the
/// reference of the first record that the transaction consumes, else
/// `InvalidArgument`; of any other ring nothing is asked.
pub fn check_anchor(tx: &Transaction, variant: Variant, output_type_script: &Script) -> (result:
    Result<(), Error>)
    ensures
        result == anchor_verdict(tx@, variant, output_type_script@.args),
{
    match variant {
        Variant::Extended => Ok(()),
        Variant::Fixed => match tx.load_input_out_point(0, Source::Input) {
            Ok(out_point) => if output_type_script.same_args(out_point) {
                Ok(())
            } else {
                Err(Error::InvalidArgument)
            },
            Err(fault) => Err(Error::from(fault)),
        },
    }
}

/// Judges the data of a created index-state record: two bytes, else
/// `IndexStateDataLenError`; a slot of the ring, else
/// `IndexStateOutOfBound`; the capacity of the ring, else `InfoAmountError`.
pub fn check_index_state_data(data: &Vec<u8>) -> (result: Result<(), Error>)
    ensures
        result == data_verdict(data@),
        result is Ok <==> well_formed(data@),
{
    if data.len() != INDEX_STATE_CELL_DATA_LEN {
        return Err(Error::IndexStateDataLenError);
    }
    if data[0] >= SUM_OF_INFO_CELLS {
        return Err(Error::IndexStateOutOfBound);
    }
    if data[1] != SUM_OF_INFO_CELLS {
        return Err(Error::InfoAmountError);
    }
    Ok(())
}

/// Reads the first record of `source` and judges it as a created
/// index-state record. Returns its data, or the fault of the ledger, or
/// the error of [`check_index_state_data`].
pub fn check_index_state_cell_data(tx: &Transaction, source: Source) -> (result: Result<
    &Vec<u8>,
    Error,
>)
    ensures
        match result {
            Ok(data) => checked_cell_data(tx@, source) == Ok::<Seq<u8>, Error>(data@),
            Err(error) => checked_cell_data(tx@, source) == Err::<Seq<u8>, Error>(error),
        },
        result matches Ok(data) ==> well_formed(data@),
{
    let data = match tx.load_cell_data(0, source) {
        Ok(data) => data,
        Err(fault) => {
            return Err(Error::from(fault));
        },
    };
    match check_index_state_data(data) {
        Ok(()) => Ok(data),
        Err(error) => Err(error),
    }
}

/// Judges the data of an update: the first consumed record of the group
/// must have the length that the variant asks, the first created record
/// must be well formed, and its position must follow the consumed one.
pub fn check_index_state_cells_data(tx: &Transaction, variant: Variant) -> (result: Result<
    (),
    Error,
>)
    ensures
        result == update_verdict(tx@, variant),
{
    let input_data = match tx.load_cell_data(0, Source::GroupInput) {
        Ok(data) => data,
        Err(fault) => {
            return Err(Error::from(fault));
        },
    };
    let output_data = match tx.load_cell_data(0, Source::GroupOutput) {
        Ok(data) => data,
        Err(fault) => {
            return Err(Error::from(fault));
        },
    };
    let input_length_valid = match variant {
        Variant::Fixed => input_data.len() == INDEX_STATE_CELL_DATA_LEN,
        Variant::Extended => input_data.len() > 0,
    };
    if !input_length_valid {
        return Err(Error::IndexStateDataLenError);
    }
    match check_index_state_data(output_data) {
        Ok(()) => {},
        Err(error) => {
            return Err(error);
        },
    }
    if input_data[0] == SUM_OF_INFO_CELLS - 1 {
        if output_data[0] != 0 {
            return Err(Error::IndexIncreaseError);
        }
    } else if input_data[0] as u16 + 1 != output_data[0] as u16 {
        return Err(Error::IndexIncreaseError);
    }
    Ok(())
}

/// The type script of the first created record of the group, or
/// `IndexStateTypeNotExist` when there is no such record or it has no type script.
pub fn load_output_type_script(tx: &Transaction) -> (result: Result<&Script, Error>)
    ensures
        match result {
            Ok(script) => output_type_script(tx@) == Ok::<ScriptView, Error>(script@),
            Err(error) => output_type_script(tx@) == Err::<ScriptView, Error>(error),
        },
{
    match tx.load_cell_type(0, Source::GroupOutput) {
        Ok(Some(script)) => Ok(script),
        Ok(None) => Err(Error::IndexStateTypeNotExist),
        Err(_) => Err(Error::IndexStateTypeNotExist),
    }
}

/// Checks that the group has a first record with a type script on both
/// sides of the transaction; `IndexStateTypeNotExist` otherwise.
pub fn check_cells_type_scripts_valid(tx: &Transaction) -> (result: Result<(), Error>)
    ensures
        result == type_scripts_verdict(tx@),
{
    match load_output_type_script(tx) {
        Ok(_) => match tx.load_cell_type(0, Source::GroupInput) {
            Ok(Some(_)) => Ok(()),
            Ok(None) => Err(Error::IndexStateTypeNotExist),
            Err(_) => Err(Error::IndexStateTypeNotExist),
        },
        Err(error) => Err(error),
    }
}

/// **Rotation.** An update moves the position by one slot and in no other
/// way, in either variant. Where the consumed record states the position
/// `p` and the created record the position `q`:
///
/// * an accepted update has `p` in the ring and `q` the position that
///   follows `p`, which is `p + 1` before the last slot and `0` at the last;
/// * an update with any other `q` is rejected, and with
///   `IndexIncreaseError` when both records are otherwise in order;
/// * an update to the position that follows a `p` of the ring, by records
///   otherwise in order, is accepted.
///
/// The same holds of the validator as a whole on a transaction that has a
/// record of its code on both sides.
pub proof fn lemma_rotation(tx: TransactionView, variant: Variant, input: Seq<u8>, output: Seq<u8>)
    requires
        tx.cell_data(0, Source::GroupInput) == Ok::<Seq<u8>, SysError>(input),
        tx.cell_data(0, Source::GroupOutput) == Ok::<Seq<u8>, SysError>(output),
        input.len() > 0,
        output.len() > 0,
    ensures
        update_verdict(tx, variant) is Ok ==> input[0] < SUM_OF_INFO_CELLS && output[0]
            == next_position(input[0]),
        input[0] < SUM_OF_INFO_CELLS - 1 ==> next_position(input[0]) == input[0] + 1,
        input[0] == SUM_OF_INFO_CELLS - 1 ==> next_position(input[0]) == 0,
        output[0] != next_position(input[0]) ==> update_verdict(tx, variant) is Err,
        input_length_valid(variant, input) && well_formed(output) && output[0] != next_position(
            input[0],
        ) ==> update_verdict(tx, variant) == Err::<(), Error>(Error::IndexIncreaseError),
        input_length_valid(variant, input) && well_formed(output) && output[0] == next_position(
            input[0],
        ) ==> update_verdict(tx, variant) is Ok,
        tx.type_script_exists(Source::Input) && tx.type_script_exists(Source::Output) && verdict(
            tx,
            variant,
        ) is Ok ==> input[0] < SUM_OF_INFO_CELLS && output[0] == next_position(input[0]),
        tx.type_script_exists(Source::Input) && tx.type_script_exists(Source::Output) && output[0]
            != next_position(input[0]) ==> verdict(tx, variant) is Err,
{
}

/// **Length before content.** A record of the wrong length is rejected with
/// `IndexStateDataLenError` whatever it holds and whatever the other record
/// holds:
///
/// * a record that is judged as a created record, when it is not two bytes
///   long;
/// * an update, when the created record is not two bytes long or the
///   consumed record has not the length that the variant asks.
///
/// So two updates whose records agree in length, one of them wrong, get the
/// same verdict.
pub proof fn lemma_length_first(
    variant: Variant,
    input: Seq<u8>,
    output: Seq<u8>,
    other_input: Seq<u8>,
    other_output: Seq<u8>,
)
    requires
        other_input.len() == input.len(),
        other_output.len() == output.len(),
    ensures
        output.len() != INDEX_STATE_CELL_DATA_LEN ==> data_verdict(output) == Err::<(), Error>(
            Error::IndexStateDataLenError,
        ),
        !input_length_valid(variant, input) || output.len() != INDEX_STATE_CELL_DATA_LEN
            ==> transition_verdict(variant, input, output) == Err::<(), Error>(
            Error::IndexStateDataLenError,
        ),
        !input_length_valid(variant, input) || output.len() != INDEX_STATE_CELL_DATA_LEN
            ==> transition_verdict(variant, other_input, other_output) == transition_verdict(
            variant,
            input,
            output,
        ),
{
}

/// **Acceptance.** The verdict is `Ok` on the transactions that the
/// validator [`accepts`] and on no other.
pub proof fn lemma_accepts(tx: TransactionView, variant: Variant)
    ensures
        verdict(tx, variant) is Ok <==> accepts(tx, variant),
        !tx.type_script_exists(Source::Input) ==> verdict(tx, variant) == creation_verdict(
            tx,
            variant,
        ) && (creation_verdict(tx, variant) is Ok <==> legal_creation(tx, variant)),
        recycles(tx, variant) ==> verdict(tx, variant) is Ok,
{
}

/// **A fixed ring stays.** Where the groups are those of the ledger, a
/// transaction that consumes a fixed ring and creates no record of its
/// code is rejected with `IndexStateTypeNotExist`.
pub proof fn lemma_fixed_ring_stays(tx: TransactionView)
    requires
        tx.groups_belong(),
        tx.type_script_exists(Source::Input),
        !tx.type_script_exists(Source::Output),
    ensures
        verdict(tx, Variant::Fixed) == Err::<(), Error>(Error::IndexStateTypeNotExist),
        verdict(tx, Variant::Extended) is Ok,
{
    if tx.group_outputs.len() > 0 {
        let index = choose|index: int|
            0 <= index < tx.outputs.len() && tx.outputs[index] == tx.group_outputs[0];
        assert(tx.runs_own_code(index, Source::Output));
    }
}

/// **The fixed ring is the stricter one.** Whatever transaction is
/// accepted for a fixed ring is accepted for the other too.
pub proof fn lemma_fixed_is_stricter(tx: TransactionView)
    ensures
        verdict(tx, Variant::Fixed) is Ok ==> verdict(tx, Variant::Extended) is Ok,
{
}

} // verus!
