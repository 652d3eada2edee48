//! The validator of the info record, which holds the value of one slot of
//! the ring.
//!
//! The record is ten bytes, `[position, kind, content]`, the content being a
//! big-endian `u64`. A transaction may
//!
//! * *create* it, when no consumed record is governed by the validator's
//!   code: the group must create exactly one record, which must carry the
//!   arguments of the type script of the first created record of the
//!   transaction, taken to be the index-state record of the ring, and must
//!   be ten bytes long;
//! * *update* it, when a consumed record is governed by the validator's
//!   code: both the consumed and the created record must be ten bytes long,
//!   the created position must be that of the index-state record, and, for
//!   a timestamp or a block number, the content must grow and the time lock
//!   of the consuming input must state the new content. The ledger admits a
//!   transaction only once its time locks have passed, so a record cannot
//!   run ahead of time.
//!
//! [`verdict`] gives the outcome for every transaction and [`validate`]
//! computes it.

use vstd::prelude::*;
use crate::constants::{
    DataType,
    INDEX_STATE_CELL_DATA_LEN,
    INFO_CELL_DATA_LEN,
    INFO_CELL_META_TYPE_POS,
};
use crate::constants::SUM_OF_INFO_CELLS;
use crate::error::{Error, SysError};
use crate::index_state::{next_position, Variant};
use crate::transaction::{Script, ScriptView, Source, Transaction, TransactionView};
use vstd::std_specs::convert::FromSpec;

verus! {

/// The flag that marks a time lock as an absolute timestamp: bit 62.
pub const SINCE_TIMESTAMP_BASE: u64 = 0x4000_0000_0000_0000;

/// The content of an info record: bytes 2 to 9, the most significant first.
pub open spec fn content_of(data: Seq<u8>) -> int {
    data[2] * 0x0100_0000_0000_0000 + data[3] * 0x0001_0000_0000_0000 + data[4]
        * 0x0000_0100_0000_0000 + data[5] * 0x0000_0001_0000_0000 + data[6] * 0x0000_0000_0100_0000
        + data[7] * 0x0000_0000_0001_0000 + data[8] * 0x0000_0000_0000_0100 + data[9]
}

/// The kind that an info record states: `None` where its second byte
/// names no kind.
pub open spec fn kind_of(data: Seq<u8>) -> Option<DataType> {
    DataType::spec_from_u8(data[INFO_CELL_META_TYPE_POS as int])
}

/// The kinds on which the rules of growth and of the time lock bear.
pub open spec fn is_timed(kind: Option<DataType>) -> bool {
    kind == Some(DataType::Timestamp) || kind == Some(DataType::BlockNumber)
}

/// The time lock that an update to `content` asks of the consuming input:
/// the content itself for a block number, the content flagged as an
/// absolute timestamp for a timestamp, and none for any other kind.
pub open spec fn expected_since(kind: Option<DataType>, content: int) -> Option<int> {
    match kind {
        Some(DataType::Timestamp) => Some(SINCE_TIMESTAMP_BASE + content),
        Some(DataType::BlockNumber) => Some(content),
        _ => None,
    }
}

/// The error that a content that did not grow gives, by kind.
pub open spec fn not_bigger(kind: Option<DataType>) -> Error {
    if kind == Some(DataType::Timestamp) {
        Error::OutputTimestampNotBigger
    } else {
        Error::OutputBlockNumberNotBigger
    }
}

/// The verdict on the content of an update from `input` to `output`, two
/// records of ten bytes, whose consuming input has the time lock `since`.
/// A timestamp and a block number must grow, which is judged first, and
/// must be stated by the time lock; any other kind passes.
pub open spec fn content_verdict(input: Seq<u8>, output: Seq<u8>, since: u64) -> Result<
    (),
    Error,
> {
    let kind = kind_of(output);
    match expected_since(kind, content_of(output)) {
        None => Ok(()),
        Some(expected) => if content_of(input) >= content_of(output) {
            Err(not_bigger(kind))
        } else if since != expected {
            Err(Error::InvalidTimeInfoSince)
        } else {
            Ok(())
        },
    }
}

/// What [`is_info_data_len_valid`] returns.
pub open spec fn lengths_valid(input: Seq<u8>, output: Seq<u8>) -> bool {
    input.len() == INFO_CELL_DATA_LEN && output.len() == INFO_CELL_DATA_LEN
}

/// What [`check_info_cells_data`] returns: the verdict on the data of an
/// update. The records are read and judged in this order: the first created
/// record of the transaction, which must be two bytes long; the consumed and
/// the created record of the group, which must be ten bytes long; the
/// positions; the time lock and the content.
pub open spec fn update_verdict(tx: TransactionView) -> Result<(), Error> {
    match tx.cell_data(0, Source::Output) {
        Err(fault) => Err(Error::from_spec(fault)),
        Ok(index_state) => if index_state.len() != INDEX_STATE_CELL_DATA_LEN {
            Err(Error::IndexStateDataLenError)
        } else {
            match tx.cell_data(0, Source::GroupInput) {
                Err(fault) => Err(Error::from_spec(fault)),
                Ok(input) => match tx.cell_data(0, Source::GroupOutput) {
                    Err(fault) => Err(Error::from_spec(fault)),
                    Ok(output) => if !lengths_valid(input, output) {
                        Err(Error::InfoDataLenError)
                    } else if output[0] != index_state[0] {
                        Err(Error::InfoIndexNotSame)
                    } else {
                        match tx.input_since(0, Source::GroupInput) {
                            Err(fault) => Err(Error::from_spec(fault)),
                            Ok(since) => content_verdict(input, output, since),
                        }
                    },
                },
            }
        },
    }
}

/// What [`check_info_cell_data`] returns: the verdict on the data of a creation.
pub open spec fn created_data_verdict(tx: TransactionView) -> Result<(), Error> {
    match tx.cell_data(0, Source::GroupOutput) {
        Ok(data) => if data.len() == INFO_CELL_DATA_LEN {
            Ok(())
        } else {
            Err(Error::InfoDataLenError)
        },
        Err(_) => Err(Error::InfoTypeNotExist),
    }
}

/// What [`load_output_index_state_type_args`] returns: the arguments of the
/// type script of the first created record of the transaction.
pub open spec fn output_index_state_type_args(tx: TransactionView) -> Result<Seq<u8>, Error> {
    match tx.cell_type(0, Source::Output) {
        Ok(Some(script)) => Ok(script.args),
        _ => Err(Error::IndexStateTypeNotExist),
    }
}

/// What [`load_output_type_script`] returns: the type script of the first
/// created record of the group.
pub open spec fn output_type_script(tx: TransactionView) -> Result<ScriptView, Error> {
    match tx.cell_type(0, Source::GroupOutput) {
        Ok(Some(script)) => Ok(script),
        _ => Err(Error::InfoTypeNotExist),
    }
}

/// What [`check_cells_type_scripts_valid`] returns: whether the group has a
/// first record with a type script on both sides.
pub open spec fn type_scripts_verdict(tx: TransactionView) -> Result<(), Error> {
    if tx.cell_type(0, Source::GroupOutput) matches Ok(Some(_)) && tx.cell_type(
        0,
        Source::GroupInput,
    ) matches Ok(Some(_)) {
        Ok(())
    } else {
        Err(Error::InfoTypeNotExist)
    }
}

/// What [`check_info_creation`] returns: the verdict on a creation. The
/// group must create exactly one record; the record must have a type
/// script, whose arguments are those of the type script of the first
/// created record of the transaction; and its data must be in order.
pub open spec fn creation_verdict(tx: TransactionView) -> Result<(), Error> {
    if tx.cells(Source::GroupOutput).len() != 1 {
        Err(Error::InfoTypeNotExist)
    } else {
        match output_type_script(tx) {
            Err(error) => Err(error),
            Ok(script) => match output_index_state_type_args(tx) {
                Err(error) => Err(error),
                Ok(args) => if script.args != args {
                    Err(Error::InvalidArgument)
                } else {
                    created_data_verdict(tx)
                },
            },
        }
    }
}

/// A legal creation: the group creates exactly one record, which has a
/// type script, whose arguments are those of the type script of the first
/// created record of the transaction, and is ten bytes long.
pub open spec fn legal_creation(tx: TransactionView) -> bool {
    &&& tx.cells(Source::GroupOutput).len() == 1
    &&& tx.cell_type(0, Source::GroupOutput) matches Ok(Some(script))
    &&& tx.cell_type(0, Source::Output) matches Ok(Some(index_state_script))
    &&& script.args == index_state_script.args
    &&& tx.cell_data(0, Source::GroupOutput) matches Ok(output)
    &&& output.len() == INFO_CELL_DATA_LEN
}

/// A legal update: the group has a first record with a type script on both
/// sides; the first created record of the transaction is two bytes long;
/// the consumed and the created record of the group are ten bytes long;
/// the created record sits at the position of the first created record of
/// the transaction; and where its kind is a timestamp or a block number,
/// its content is above the consumed one and the time lock of the
/// consuming input states it.
pub open spec fn legal_update(tx: TransactionView) -> bool {
    &&& tx.cell_type(0, Source::GroupOutput) matches Ok(Some(_))
    &&& tx.cell_type(0, Source::GroupInput) matches Ok(Some(_))
    &&& tx.cell_data(0, Source::Output) matches Ok(index_state)
    &&& tx.cell_data(0, Source::GroupInput) matches Ok(input)
    &&& tx.cell_data(0, Source::GroupOutput) matches Ok(output)
    &&& tx.input_since(0, Source::GroupInput) matches Ok(since)
    &&& index_state.len() == INDEX_STATE_CELL_DATA_LEN
    &&& lengths_valid(input, output)
    &&& output[0] == index_state[0]
    &&& is_timed(kind_of(output)) ==> content_of(output) > content_of(input) && expected_since(
        kind_of(output),
        content_of(output),
    ) == Some(since as int)
}

/// The transactions that the validator accepts: with no consumed record of
/// its code, the legal creations; else the legal updates.
pub open spec fn accepts(tx: TransactionView) -> bool {
    if tx.type_script_exists(Source::Input) {
        legal_update(tx)
    } else {
        legal_creation(tx)
    }
}

/// The verdict of the validator on a transaction: `Ok` on those that it
/// [`accepts`], and else the first error in the order of its checks.
pub open spec fn verdict(tx: TransactionView) -> Result<(), Error> {
    if tx.type_script_exists(Source::Input) {
        match type_scripts_verdict(tx) {
            Err(error) => Err(error),
            Ok(()) => update_verdict(tx),
        }
    } else {
        creation_verdict(tx)
    }
}

/// Judges a transaction for the info record that the validator governs.
pub fn validate(tx: &Transaction) -> (result: Result<(), Error>)
    ensures
        result == verdict(tx@),
        result is Ok <==> accepts(tx@),
{
    if check_type_script_exists_in_inputs(tx) {
        match check_cells_type_scripts_valid(tx) {
            Ok(()) => check_info_cells_data(tx),
            Err(error) => Err(error),
        }
    } else {
        check_info_creation(tx)
    }
}

/// Judges a creation: the group creates exactly one record, else
/// `InfoTypeNotExist`; the record has a type script, else
/// `InfoTypeNotExist`; the first created record of the transaction has
/// one too, else `IndexStateTypeNotExist`; the two have the same
/// arguments, else `InvalidArgument`; and the data are in order, see
/// [`check_info_cell_data`].
pub fn check_info_creation(tx: &Transaction) -> (result: Result<(), Error>)
    ensures
        result == creation_verdict(tx@),
{
    if tx.len(Source::GroupOutput) != 1 {
        return Err(Error::InfoTypeNotExist);
    }
    let output_type_script = match load_output_type_script(tx) {
        Ok(script) => script,
        Err(error) => {
            return Err(error);
        },
    };
    let index_state_type_args = match load_output_index_state_type_args(tx) {
        Ok(args) => args,
        Err(error) => {
            return Err(error);
        },
    };
    if !output_type_script.same_args(index_state_type_args) {
        return Err(Error::InvalidArgument);
    }
    check_info_cell_data(tx)
}

/// The arguments of the type script of the first created record of the
/// transaction, or `IndexStateTypeNotExist` when there is no such record or
/// it has no type script.
pub fn load_output_index_state_type_args(tx: &Transaction) -> (result: Result<&Vec<u8>, Error>)
    ensures
        match result {
            Ok(args) => output_index_state_type_args(tx@) == Ok::<Seq<u8>, Error>(args@),
            Err(error) => output_index_state_type_args(tx@) == Err::<Seq<u8>, Error>(error),
        },
{
    match tx.load_cell_type(0, Source::Output) {
        Ok(Some(output_type_script)) => Ok(&output_type_script.args),
        Ok(None) => Err(Error::IndexStateTypeNotExist),
        Err(_) => Err(Error::IndexStateTypeNotExist),
    }
}

/// Checks the data of a creation: the first created record of the group
/// must be there, else `InfoTypeNotExist`, and ten bytes long, else
/// `InfoDataLenError`.
pub fn check_info_cell_data(tx: &Transaction) -> (result: Result<(), Error>)
    ensures
        result == created_data_verdict(tx@),
{
    match tx.load_cell_data(0, Source::GroupOutput) {
        Ok(info_data) => if is_info_data_len_valid(info_data, info_data) {
            Ok(())
        } else {
            Err(Error::InfoDataLenError)
        },
        Err(_) => Err(Error::InfoTypeNotExist),
    }
}

/// Checks the data of an update against the index-state record, the consumed
/// info record and the time lock of its consumption.
pub fn check_info_cells_data(tx: &Transaction) -> (result: Result<(), Error>)
    ensures
        result == update_verdict(tx@),
{
    let output_index_state_data = match tx.load_cell_data(0, Source::Output) {
        Ok(data) => data,
        Err(fault) => {
            return Err(Error::from(fault));
        },
    };
    if output_index_state_data.len() != INDEX_STATE_CELL_DATA_LEN {
        return Err(Error::IndexStateDataLenError);
    }
    let input_info_data = match tx.load_cell_data(0, Source::GroupInput) {
        Ok(data) => data,
        Err(fault) => {
            return Err(Error::from(fault));
        },
    };
    let output_info_data = match tx.load_cell_data(0, Source::GroupOutput) {
        Ok(data) => data,
        Err(fault) => {
            return Err(Error::from(fault));
        },
    };
    if !is_info_data_len_valid(input_info_data, output_info_data) {
        return Err(Error::InfoDataLenError);
    }
    if output_info_data[0] != output_index_state_data[0] {
        return Err(Error::InfoIndexNotSame);
    }
    let since = match tx.load_input_since(0, Source::GroupInput) {
        Ok(since) => since,
        Err(fault) => {
            return Err(Error::from(fault));
        },
    };
    match DataType::from_u8(output_info_data[INFO_CELL_META_TYPE_POS]) {
        Some(DataType::Timestamp) => {
            let input_timestamp = content_from_info_data(input_info_data);
            let output_timestamp = content_from_info_data(output_info_data);
            if input_timestamp >= output_timestamp {
                return Err(Error::OutputTimestampNotBigger);
            }
            match SINCE_TIMESTAMP_BASE.checked_add(output_timestamp) {
                Some(expected) => if expected != since {
                    return Err(Error::InvalidTimeInfoSince);
                },
                None => {
                    return Err(Error::InvalidTimeInfoSince);
                },
            }
        },
        Some(DataType::BlockNumber) => {
            let input_block_number = content_from_info_data(input_info_data);
            let output_block_number = content_from_info_data(output_info_data);
            if input_block_number >= output_block_number {
                return Err(Error::OutputBlockNumberNotBigger);
            }
            if output_block_number != since {
                return Err(Error::InvalidTimeInfoSince);
            }
        },
        _ => {},
    }
    Ok(())
}

/// Decodes the content of an info record.
pub fn content_from_info_data(info_data: &Vec<u8>) -> (content: u64)
    requires
        info_data.len() == INFO_CELL_DATA_LEN,
    ensures
        content == content_of(info_data@),
{
    let b2 = info_data[2] as u64;
    let b3 = info_data[3] as u64;
    let b4 = info_data[4] as u64;
    let b5 = info_data[5] as u64;
    let b6 = info_data[6] as u64;
    let b7 = info_data[7] as u64;
    let b8 = info_data[8] as u64;
    let b9 = info_data[9] as u64;
    b2 * 0x0100_0000_0000_0000 + b3 * 0x0001_0000_0000_0000 + b4 * 0x0000_0100_0000_0000 + b5
        * 0x0000_0001_0000_0000 + b6 * 0x0000_0000_0100_0000 + b7 * 0x0000_0000_0001_0000 + b8
        * 0x0000_0000_0000_0100 + b9
}

/// Whether both records of an update have the length of an info record.
pub fn is_info_data_len_valid(input_info_data: &Vec<u8>, output_info_data: &Vec<u8>) -> (valid: bool)
    ensures
        valid == lengths_valid(input_info_data@, output_info_data@),
{
    input_info_data.len() == INFO_CELL_DATA_LEN && output_info_data.len() == INFO_CELL_DATA_LEN
}

/// The type script of the first created record of the group, or
/// `InfoTypeNotExist` when there is no such record or it has no type script.
pub fn load_output_type_script(tx: &Transaction) -> (result: Result<&Script, Error>)
    ensures
        match result {
            Ok(script) => output_type_script(tx@) == Ok::<ScriptView, Error>(script@),
            Err(error) => output_type_script(tx@) == Err::<ScriptView, Error>(error),
        },
{
    match tx.load_cell_type(0, Source::GroupOutput) {
        Ok(Some(script)) => Ok(script),
        Ok(None) => Err(Error::InfoTypeNotExist),
        Err(_) => Err(Error::InfoTypeNotExist),
    }
}

/// Checks that the group has a first record with a type script on both
/// sides of the transaction; `InfoTypeNotExist` otherwise.
pub fn check_cells_type_scripts_valid(tx: &Transaction) -> (result: Result<(), Error>)
    ensures
        result == type_scripts_verdict(tx@),
{
    match load_output_type_script(tx) {
        Ok(_) => match tx.load_cell_type(0, Source::GroupInput) {
            Ok(Some(_)) => Ok(()),
            Ok(None) => Err(Error::InfoTypeNotExist),
            Err(_) => Err(Error::InfoTypeNotExist),
        },
        Err(error) => Err(error),
    }
}

/// Whether some consumed record is governed by the validator's code.
pub fn check_type_script_exists_in_inputs(tx: &Transaction) -> (found: bool)
    ensures
        found == tx@.type_script_exists(Source::Input),
{
    tx.check_type_script_exists(Source::Input)
}

/// The content of an info record fits in a `u64`.
pub proof fn lemma_content_bounds(data: Seq<u8>)
    ensures
        0 <= content_of(data) <= u64::MAX,
{
}

/// The flag of an absolute timestamp is bit 62, and flagging a content that
/// leaves that bit and the one above it free is adding the flag to it.
pub proof fn lemma_timestamp_flag(content: u64)
    ensures
        SINCE_TIMESTAMP_BASE == 1u64 << 62,
        content < SINCE_TIMESTAMP_BASE ==> (SINCE_TIMESTAMP_BASE | content) == SINCE_TIMESTAMP_BASE
            + content,
{
    assert(0x4000_0000_0000_0000u64 == 1u64 << 62) by (bit_vector);
    assert(content < 0x4000_0000_0000_0000u64 ==> (0x4000_0000_0000_0000u64 | content)
        == 0x4000_0000_0000_0000u64 + content) by (bit_vector);
}

/// **Monotonicity.** The content of a timestamp or a block number grows
/// with every update: an accepted update has a created content above the
/// consumed one, and an update to an equal or smaller content is rejected,
/// whatever the positions and the time lock are. Where the records before
/// the content are in order, the rejection is `OutputTimestampNotBigger` or
/// `OutputBlockNumberNotBigger`, by the kind of the created record.
///
/// The same holds of the validator as a whole on a transaction that
/// consumes a record of its code.
pub proof fn lemma_content_grows(
    tx: TransactionView,
    index_state: Seq<u8>,
    input: Seq<u8>,
    output: Seq<u8>,
)
    requires
        tx.cell_data(0, Source::Output) == Ok::<Seq<u8>, SysError>(index_state),
        tx.cell_data(0, Source::GroupInput) == Ok::<Seq<u8>, SysError>(input),
        tx.cell_data(0, Source::GroupOutput) == Ok::<Seq<u8>, SysError>(output),
        lengths_valid(input, output),
        is_timed(kind_of(output)),
    ensures
        update_verdict(tx) is Ok ==> content_of(output) > content_of(input),
        content_of(output) <= content_of(input) ==> update_verdict(tx) is Err,
        content_of(output) <= content_of(input) && index_state.len() == INDEX_STATE_CELL_DATA_LEN
            && output[0] == index_state[0] ==> update_verdict(tx) == Err::<(), Error>(
            not_bigger(kind_of(output)),
        ),
        tx.type_script_exists(Source::Input) && verdict(tx) is Ok ==> content_of(output)
            > content_of(input),
        tx.type_script_exists(Source::Input) && content_of(output) <= content_of(input) ==> verdict(
            tx,
        ) is Err,
{
}

/// **Position coupling.** An updated info record sits at the position of
/// the index-state record: an accepted update has the created info record
/// and the first created record of the transaction agree on the position,
/// and an update on which they disagree is rejected, with
/// `InfoIndexNotSame` when every record has its length.
///
/// The same holds of the validator as a whole on a transaction that
/// consumes a record of its code; there the rejection is `InfoIndexNotSame`
/// when, besides, the group has a first record with a type script on both
/// sides.
pub proof fn lemma_position_coupled(
    tx: TransactionView,
    index_state: Seq<u8>,
    input: Seq<u8>,
    output: Seq<u8>,
)
    requires
        tx.cell_data(0, Source::Output) == Ok::<Seq<u8>, SysError>(index_state),
        tx.cell_data(0, Source::GroupInput) == Ok::<Seq<u8>, SysError>(input),
        tx.cell_data(0, Source::GroupOutput) == Ok::<Seq<u8>, SysError>(output),
    ensures
        update_verdict(tx) is Ok ==> output[0] == index_state[0],
        index_state.len() > 0 && output.len() > 0 && output[0] != index_state[0] ==> update_verdict(
            tx,
        ) is Err,
        index_state.len() == INDEX_STATE_CELL_DATA_LEN && lengths_valid(input, output) && output[0]
            != index_state[0] ==> update_verdict(tx) == Err::<(), Error>(Error::InfoIndexNotSame),
        tx.type_script_exists(Source::Input) && verdict(tx) is Ok ==> output[0] == index_state[0],
        tx.type_script_exists(Source::Input) && type_scripts_verdict(tx) is Ok && index_state.len()
            == INDEX_STATE_CELL_DATA_LEN && lengths_valid(input, output) && output[0]
            != index_state[0] ==> verdict(tx) == Err::<(), Error>(Error::InfoIndexNotSame),
{
}

/// **Time-lock binding.** The time lock of the input that consumes an info
/// record states the content that the update writes: for a timestamp the
/// content plus the flag of an absolute timestamp, for a block number the
/// content itself. An accepted update has exactly that time lock, and an
/// update that passes every earlier check with any other time lock, one off
/// or without the flag, is rejected with `InvalidTimeInfoSince`.
///
/// The first part holds of the validator as a whole on a transaction that
/// consumes a record of its code.
pub proof fn lemma_time_lock_bound(
    tx: TransactionView,
    index_state: Seq<u8>,
    input: Seq<u8>,
    output: Seq<u8>,
    since: u64,
)
    requires
        tx.cell_data(0, Source::Output) == Ok::<Seq<u8>, SysError>(index_state),
        tx.cell_data(0, Source::GroupInput) == Ok::<Seq<u8>, SysError>(input),
        tx.cell_data(0, Source::GroupOutput) == Ok::<Seq<u8>, SysError>(output),
        tx.input_since(0, Source::GroupInput) == Ok::<u64, SysError>(since),
        lengths_valid(input, output),
    ensures
        update_verdict(tx) is Ok && kind_of(output) == Some(DataType::Timestamp) ==> since
            == SINCE_TIMESTAMP_BASE + content_of(output),
        update_verdict(tx) is Ok && kind_of(output) == Some(DataType::BlockNumber) ==> since
            == content_of(output),
        index_state.len() == INDEX_STATE_CELL_DATA_LEN && output[0] == index_state[0] && content_of(
            output,
        ) > content_of(input) && is_timed(kind_of(output)) && expected_since(
            kind_of(output),
            content_of(output),
        ) != Some(since as int) ==> update_verdict(tx) == Err::<(), Error>(
            Error::InvalidTimeInfoSince,
        ),
        tx.type_script_exists(Source::Input) && verdict(tx) is Ok && is_timed(kind_of(output))
            ==> expected_since(kind_of(output), content_of(output)) == Some(since as int),
{
}

/// **Length before content.** A record of the wrong length is rejected
/// whatever it holds and whatever the other records and the time lock are:
///
/// * an update, with `IndexStateDataLenError` when the first created record
///   of the transaction is not two bytes long, and else with
///   `InfoDataLenError` when the consumed or the created record of the
///   group is not ten bytes long;
/// * a creation, with `InfoDataLenError` when the created record of the
///   group is not ten bytes long.
///
/// So two transactions whose records agree in length, one of them wrong,
/// get the same verdict on their data.
pub proof fn lemma_length_first(
    tx: TransactionView,
    other: TransactionView,
    index_state: Seq<u8>,
    input: Seq<u8>,
    output: Seq<u8>,
    other_index_state: Seq<u8>,
    other_input: Seq<u8>,
    other_output: Seq<u8>,
)
    requires
        tx.cell_data(0, Source::Output) == Ok::<Seq<u8>, SysError>(index_state),
        tx.cell_data(0, Source::GroupInput) == Ok::<Seq<u8>, SysError>(input),
        tx.cell_data(0, Source::GroupOutput) == Ok::<Seq<u8>, SysError>(output),
        other.cell_data(0, Source::Output) == Ok::<Seq<u8>, SysError>(other_index_state),
        other.cell_data(0, Source::GroupInput) == Ok::<Seq<u8>, SysError>(other_input),
        other.cell_data(0, Source::GroupOutput) == Ok::<Seq<u8>, SysError>(other_output),
        other_index_state.len() == index_state.len(),
        other_input.len() == input.len(),
        other_output.len() == output.len(),
    ensures
        index_state.len() != INDEX_STATE_CELL_DATA_LEN ==> update_verdict(tx) == Err::<(), Error>(
            Error::IndexStateDataLenError,
        ),
        index_state.len() == INDEX_STATE_CELL_DATA_LEN && !lengths_valid(input, output)
            ==> update_verdict(tx) == Err::<(), Error>(Error::InfoDataLenError),
        index_state.len() != INDEX_STATE_CELL_DATA_LEN || !lengths_valid(input, output)
            ==> update_verdict(other) == update_verdict(tx),
        output.len() != INFO_CELL_DATA_LEN ==> created_data_verdict(tx) == Err::<(), Error>(
            Error::InfoDataLenError,
        ) && created_data_verdict(other) == created_data_verdict(tx),
{
}

/// **Acceptance.** The verdict is `Ok` on the transactions that the
/// validator [`accepts`] and on no other.
pub proof fn lemma_accepts(tx: TransactionView)
    ensures
        verdict(tx) is Ok <==> accepts(tx),
        creation_verdict(tx) is Ok <==> legal_creation(tx),
{
}

/// **The ring and its record move together.** Where one transaction is
/// accepted as an update both for the index-state record and for the info
/// record, and the index-state record is the first that the transaction
/// creates, the info record is written at the slot that follows the
/// position that the ring had: one step on, and from the last slot to the
/// first.
pub proof fn lemma_moves_with_the_ring(
    index_state_run: TransactionView,
    info_run: TransactionView,
    variant: Variant,
    consumed: Seq<u8>,
    created: Seq<u8>,
    info_created: Seq<u8>,
)
    requires
        index_state_run.cell_data(0, Source::GroupInput) == Ok::<Seq<u8>, SysError>(consumed),
        index_state_run.cell_data(0, Source::GroupOutput) == Ok::<Seq<u8>, SysError>(created),
        info_run.cell_data(0, Source::Output) == Ok::<Seq<u8>, SysError>(created),
        info_run.cell_data(0, Source::GroupOutput) == Ok::<Seq<u8>, SysError>(info_created),
        index_state_run.type_script_exists(Source::Input),
        index_state_run.type_script_exists(Source::Output),
        info_run.type_script_exists(Source::Input),
        crate::index_state::verdict(index_state_run, variant) is Ok,
        verdict(info_run) is Ok,
    ensures
        consumed.len() > 0,
        consumed[0] < SUM_OF_INFO_CELLS,
        info_created.len() == INFO_CELL_DATA_LEN,
        info_created[0] == next_position(consumed[0]),
        info_created[0] < SUM_OF_INFO_CELLS,
{
}

} // verus!
