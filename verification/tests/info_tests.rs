//! Whole transactions, run through both validators as the ledger would run
//! them: once for every script group, the first failure being reported with
//! the place of the group.

use ckb_time_scripts::constants::{
    DataType, INDEX_STATE_CELL_DATA_LEN, INFO_CELL_DATA_LEN, SUM_OF_INFO_CELLS,
};
use ckb_time_scripts::error::Error;
use ckb_time_scripts::transaction::{Cell, CellInput, Script, Transaction};
use ckb_time_scripts::index_state::{self, Variant};
use ckb_time_scripts::info;

// error numbers
const INVALID_ARGUMENT: i8 = 5;
const TIME_INFO_DATA_LEN_ERROR: i8 = 6;
const INDEX_STATE_DATA_LEN_ERROR: i8 = 7;
const TIME_INFO_TYPE_NOT_EXIST: i8 = 8;
const TIME_INFO_INDEX_NOT_SAME: i8 = 9;
const OUTPUT_TIMESTAMP_NOT_BIGGER: i8 = 10;
const OUTPUT_BLOCK_NUMBER_NOT_BIGGER: i8 = 11;
const INVALID_TIME_INFO_SINCE: i8 = 12;

const INDEX_STATE_CODE: [u8; 32] = [0x11; 32];
const INFO_CODE: [u8; 32] = [0x22; 32];

#[derive(Debug, Clone, Copy, PartialEq, Eq)]
enum Side {
    Input,
    Output,
}

#[derive(Debug, Clone, PartialEq, Eq)]
struct ScriptError {
    code: i8,
    place: Option<(Side, usize)>,
}

impl ScriptError {
    fn validation_failure(code: i8) -> ScriptError {
        ScriptError { code, place: None }
    }

    fn input_type_script(self, index: usize) -> ScriptError {
        ScriptError {
            code: self.code,
            place: Some((Side::Input, index)),
        }
    }

    fn output_type_script(self, index: usize) -> ScriptError {
        ScriptError {
            code: self.code,
            place: Some((Side::Output, index)),
        }
    }
}

fn assert_type_script_error(err: ScriptError, code: i8, script_cell_index: usize) {
    let at_input = ScriptError::validation_failure(code).input_type_script(script_cell_index);
    let at_output = ScriptError::validation_failure(code).output_type_script(script_cell_index);
    assert!(
        err == at_input || err == at_output,
        "{:?} is neither {:?} nor {:?}",
        err,
        at_input,
        at_output
    );
}

/// A transaction as the ledger holds it, before it is split into groups.
struct TransactionView {
    inputs: Vec<CellInput>,
    outputs: Vec<Cell>,
}

fn same_script(a: &Script, b: &Script) -> bool {
    a.code_hash == b.code_hash && a.args == b.args
}

fn has_script(cell: &Cell, script: &Script) -> bool {
    match &cell.type_script {
        Some(own) => same_script(own, script),
        None => false,
    }
}

/// Runs the validator of every type script of the transaction on its group,
/// the ring being one that may be taken over and given up.
fn verify_tx(tx: &TransactionView) -> Result<usize, ScriptError> {
    verify_tx_as(tx, Variant::Extended)
}

/// Runs the validator of every type script of the transaction on its group.
fn verify_tx_as(tx: &TransactionView, variant: Variant) -> Result<usize, ScriptError> {
    let mut scripts: Vec<Script> = Vec::new();
    let of_inputs = tx.inputs.iter().map(|input| &input.cell);
    for cell in of_inputs.chain(tx.outputs.iter()) {
        if let Some(script) = &cell.type_script {
            if !scripts.iter().any(|seen| same_script(seen, script)) {
                scripts.push(script.clone());
            }
        }
    }
    for script in scripts.iter() {
        let group_inputs: Vec<usize> = (0..tx.inputs.len())
            .filter(|i| has_script(&tx.inputs[*i].cell, script))
            .collect();
        let group_outputs: Vec<usize> = (0..tx.outputs.len())
            .filter(|i| has_script(&tx.outputs[*i], script))
            .collect();
        let view = Transaction {
            script: script.clone(),
            inputs: tx.inputs.clone(),
            outputs: tx.outputs.clone(),
            group_inputs: group_inputs.iter().map(|i| tx.inputs[*i].clone()).collect(),
            group_outputs: group_outputs.iter().map(|i| tx.outputs[*i].clone()).collect(),
        };
        let result = if script.code_hash == INDEX_STATE_CODE.to_vec() {
            index_state::validate(&view, variant)
        } else if script.code_hash == INFO_CODE.to_vec() {
            info::validate(&view)
        } else {
            Ok(())
        };
        if let Err(error) = result {
            let failure = ScriptError::validation_failure(error.code());
            return Err(match group_inputs.first() {
                Some(index) => failure.input_type_script(*index),
                None => failure.output_type_script(group_outputs[0]),
            });
        }
    }
    Ok(scripts.len())
}

fn out_point(tag: u8, index: u32) -> Vec<u8> {
    let mut bytes = vec![tag; 32];
    bytes.extend_from_slice(&index.to_le_bytes());
    bytes
}

fn build_script(code_hash: &[u8; 32], args: Vec<u8>) -> Script {
    Script {
        code_hash: code_hash.to_vec(),
        args,
    }
}

fn build_index_state_cell_data(index: u8, is_data_len_err: bool) -> Vec<u8> {
    let mut time_buf = Vec::with_capacity(INDEX_STATE_CELL_DATA_LEN);
    time_buf.push(index);
    if !is_data_len_err {
        time_buf.push(SUM_OF_INFO_CELLS);
    }
    time_buf
}

fn build_info_cell_data(index: u8, type_: DataType, data: u64) -> Vec<u8> {
    let mut time_buf = Vec::with_capacity(INFO_CELL_DATA_LEN);
    time_buf.push(index);
    time_buf.push(type_ as u8);
    time_buf.extend_from_slice(&data.to_be_bytes());
    time_buf
}

fn build_wrong_info_cell_data(index: u8, type_: DataType) -> Vec<u8> {
    let mut time_buf = Vec::with_capacity(INFO_CELL_DATA_LEN - 1);
    time_buf.push(index);
    time_buf.push(type_ as u8);
    time_buf
}

fn create_test_context(outputs_data: &Vec<Vec<u8>>, is_type_args_error: bool) -> TransactionView {
    // prepare cells
    let normal_input_out_point = out_point(0xa0, 0);
    let normal_input = Cell {
        type_script: None,
        data: Vec::new(),
    };

    let index_state_type_script = build_script(&INDEX_STATE_CODE, normal_input_out_point.clone());

    let args = if is_type_args_error {
        Vec::new()
    } else {
        normal_input_out_point.clone()
    };
    let info_type_script = build_script(&INFO_CODE, args);

    let index_state_input = Cell {
        type_script: Some(index_state_type_script.clone()),
        data: build_index_state_cell_data(1, false),
    };

    let inputs = vec![
        CellInput {
            cell: normal_input,
            since: 0,
            out_point: normal_input_out_point,
        },
        CellInput {
            cell: index_state_input,
            since: 0,
            out_point: out_point(0xa1, 0),
        },
    ];

    let outputs = vec![
        Cell {
            type_script: Some(index_state_type_script),
            data: outputs_data[0].clone(),
        },
        Cell {
            type_script: Some(info_type_script),
            data: outputs_data[1].clone(),
        },
    ];

    TransactionView { inputs, outputs }
}

fn create_test_context_with_info_inputs(
    inputs_data: &Vec<Vec<u8>>,
    outputs_data: &Vec<Vec<u8>>,
    since: u64,
    type_of_cells_not_same: bool,
) -> TransactionView {
    let normal_input_out_point = out_point(0xa0, 0);
    let index_state_input_out_point = out_point(0xa1, 0);

    let info_input_out_point = out_point(0xa2, 0);

    let args = normal_input_out_point;
    let index_state_type_script = build_script(&INDEX_STATE_CODE, args.clone());
    let info_type_script = build_script(&INFO_CODE, args);

    let index_state_input = Cell {
        type_script: Some(index_state_type_script.clone()),
        data: inputs_data[0].clone(),
    };

    let info_input = Cell {
        type_script: Some(info_type_script.clone()),
        data: inputs_data[1].clone(),
    };

    let inputs = vec![
        CellInput {
            cell: index_state_input,
            since: 0,
            out_point: index_state_input_out_point.clone(),
        },
        CellInput {
            cell: info_input,
            since,
            out_point: info_input_out_point,
        },
    ];

    let mut outputs = vec![Cell {
        type_script: Some(index_state_type_script),
        data: outputs_data[0].clone(),
    }];

    if type_of_cells_not_same {
        let another_args = index_state_input_out_point;
        let another_info_type_script = build_script(&INFO_CODE, another_args);
        outputs.push(Cell {
            type_script: Some(another_info_type_script),
            data: outputs_data[1].clone(),
        });
    } else {
        outputs.push(Cell {
            type_script: Some(info_type_script),
            data: outputs_data[1].clone(),
        });
    };

    TransactionView { inputs, outputs }
}

#[test]
fn test_create_info_timestamp_cells_success() {
    let outputs_data = vec![
        build_index_state_cell_data(2, false),
        build_info_cell_data(2, DataType::Timestamp, 1614828683),
    ];
    let tx = create_test_context(&outputs_data, false);

    // run
    let groups = verify_tx(&tx).expect("pass verification");
    println!("verified groups: {}", groups);
    assert_eq!(groups, 2);
}

#[test]
fn test_create_info_block_number_cells_success() {
    let outputs_data = vec![
        build_index_state_cell_data(2, false),
        build_info_cell_data(2, DataType::BlockNumber, 10000),
    ];
    let tx = create_test_context(&outputs_data, false);

    // run
    let groups = verify_tx(&tx).expect("pass verification");
    println!("verified groups: {}", groups);
    assert_eq!(groups, 2);
}

#[test]
fn test_update_info_timestamp_cells_success() {
    let inputs_data = vec![
        build_index_state_cell_data(2, false),
        build_info_cell_data(2, DataType::Timestamp, 1614828683),
    ];
    let outputs_data = vec![
        build_index_state_cell_data(3, false),
        build_info_cell_data(3, DataType::Timestamp, 1614829080),
    ];
    let since_timestamp_base: u64 = 1 << 62;
    let timestamp: u64 = 1614829080;
    let since = since_timestamp_base + timestamp;
    let tx = create_test_context_with_info_inputs(&inputs_data, &outputs_data, since, false);

    // run
    let groups = verify_tx(&tx).expect("pass verification");
    println!("verified groups: {}", groups);
    assert_eq!(groups, 2);
}

#[test]
fn test_update_info_block_number_cells_success() {
    let inputs_data = vec![
        build_index_state_cell_data(SUM_OF_INFO_CELLS - 1, false),
        build_info_cell_data(SUM_OF_INFO_CELLS - 1, DataType::BlockNumber, 10000),
    ];
    let outputs_data = vec![
        build_index_state_cell_data(0, false),
        build_info_cell_data(0, DataType::BlockNumber, 10003),
    ];
    let since: u64 = 10003;
    let tx = create_test_context_with_info_inputs(&inputs_data, &outputs_data, since, false);

    // run
    let groups = verify_tx(&tx).expect("pass verification");
    println!("verified groups: {}", groups);
    assert_eq!(groups, 2);
}

#[test]
fn test_error_create_info_cells_invalid_args() {
    let outputs_data = vec![
        build_index_state_cell_data(2, false),
        build_info_cell_data(2, DataType::BlockNumber, 10000),
    ];
    let tx = create_test_context(&outputs_data, true);

    // run
    let err = verify_tx(&tx).unwrap_err();

    let script_cell_index = 1;
    assert_type_script_error(err, INVALID_ARGUMENT, script_cell_index);
}

#[test]
fn test_error_create_info_cell_data_len() {
    let outputs_data = vec![
        build_index_state_cell_data(2, false),
        build_wrong_info_cell_data(2, DataType::Timestamp),
    ];
    let tx = create_test_context(&outputs_data, false);

    // run
    let err = verify_tx(&tx).unwrap_err();

    let script_cell_index = 1;
    assert_eq!(
        err,
        ScriptError::validation_failure(TIME_INFO_DATA_LEN_ERROR)
            .output_type_script(script_cell_index)
    );
}

#[test]
fn test_error_index_state_cell_data_len() {
    let outputs_data = vec![
        build_index_state_cell_data(2, true),
        build_info_cell_data(2, DataType::BlockNumber, 1000),
    ];
    let tx = create_test_context(&outputs_data, false);

    // run
    let err = verify_tx(&tx).unwrap_err();

    let script_cell_index = 1;
    assert_eq!(
        err,
        ScriptError::validation_failure(INDEX_STATE_DATA_LEN_ERROR)
            .input_type_script(script_cell_index)
    );
}

#[test]
fn test_error_info_type_not_exist() {
    let inputs_data = vec![
        build_index_state_cell_data(SUM_OF_INFO_CELLS - 1, false),
        build_info_cell_data(SUM_OF_INFO_CELLS - 1, DataType::BlockNumber, 10000),
    ];
    let outputs_data = vec![
        build_index_state_cell_data(0, false),
        build_info_cell_data(0, DataType::BlockNumber, 10003),
    ];
    let since: u64 = 10003;
    let tx = create_test_context_with_info_inputs(&inputs_data, &outputs_data, since, true);

    // run
    let err = verify_tx(&tx).unwrap_err();

    let script_cell_index = 1;
    assert_type_script_error(err, TIME_INFO_TYPE_NOT_EXIST, script_cell_index);
}

#[test]
fn test_error_info_index_not_same() {
    let inputs_data = vec![
        build_index_state_cell_data(SUM_OF_INFO_CELLS - 1, false),
        build_info_cell_data(SUM_OF_INFO_CELLS - 1, DataType::BlockNumber, 10000),
    ];
    let outputs_data = vec![
        build_index_state_cell_data(0, false),
        build_info_cell_data(1, DataType::BlockNumber, 10003),
    ];
    let since: u64 = 10003;
    let tx = create_test_context_with_info_inputs(&inputs_data, &outputs_data, since, false);

    // run
    let err = verify_tx(&tx).unwrap_err();

    let script_cell_index = 1;
    assert_type_script_error(err, TIME_INFO_INDEX_NOT_SAME, script_cell_index);
}

#[test]
fn test_error_output_block_number_not_bigger() {
    let inputs_data = vec![
        build_index_state_cell_data(SUM_OF_INFO_CELLS - 1, false),
        build_info_cell_data(SUM_OF_INFO_CELLS - 1, DataType::BlockNumber, 10000),
    ];
    let outputs_data = vec![
        build_index_state_cell_data(0, false),
        build_info_cell_data(0, DataType::BlockNumber, 999),
    ];
    let since: u64 = 999;
    let tx = create_test_context_with_info_inputs(&inputs_data, &outputs_data, since, false);

    // run
    let err = verify_tx(&tx).unwrap_err();

    let script_cell_index = 1;
    assert_eq!(
        err,
        ScriptError::validation_failure(OUTPUT_BLOCK_NUMBER_NOT_BIGGER)
            .input_type_script(script_cell_index)
    );
}

#[test]
fn test_error_output_block_number_since() {
    let inputs_data = vec![
        build_index_state_cell_data(SUM_OF_INFO_CELLS - 1, false),
        build_info_cell_data(SUM_OF_INFO_CELLS - 1, DataType::BlockNumber, 10000),
    ];
    let outputs_data = vec![
        build_index_state_cell_data(0, false),
        build_info_cell_data(0, DataType::BlockNumber, 10004),
    ];
    let since: u64 = 10030;
    let tx = create_test_context_with_info_inputs(&inputs_data, &outputs_data, since, false);

    // run
    let err = verify_tx(&tx).unwrap_err();

    let script_cell_index = 1;
    assert_eq!(
        err,
        ScriptError::validation_failure(INVALID_TIME_INFO_SINCE)
            .input_type_script(script_cell_index)
    );
}

#[test]
fn test_error_output_timestamp_not_bigger() {
    let inputs_data = vec![
        build_index_state_cell_data(SUM_OF_INFO_CELLS - 1, false),
        build_info_cell_data(SUM_OF_INFO_CELLS - 1, DataType::Timestamp, 1614829080),
    ];
    let outputs_data = vec![
        build_index_state_cell_data(0, false),
        build_info_cell_data(0, DataType::Timestamp, 1614829080),
    ];
    let since: u64 = 1614829080;
    let tx = create_test_context_with_info_inputs(&inputs_data, &outputs_data, since, false);

    // run
    let err = verify_tx(&tx).unwrap_err();

    let script_cell_index = 1;
    assert_eq!(
        err,
        ScriptError::validation_failure(OUTPUT_TIMESTAMP_NOT_BIGGER)
            .input_type_script(script_cell_index)
    );
}

#[test]
fn test_error_output_timestamp_since() {
    let inputs_data = vec![
        build_index_state_cell_data(SUM_OF_INFO_CELLS - 1, false),
        build_info_cell_data(SUM_OF_INFO_CELLS - 1, DataType::Timestamp, 1614829080),
    ];
    let outputs_data = vec![
        build_index_state_cell_data(0, false),
        build_info_cell_data(0, DataType::Timestamp, 1614829880),
    ];
    let since: u64 = 1614829580;
    let tx = create_test_context_with_info_inputs(&inputs_data, &outputs_data, since, false);

    // run
    let err = verify_tx(&tx).unwrap_err();

    let script_cell_index = 1;
    assert_eq!(
        err,
        ScriptError::validation_failure(INVALID_TIME_INFO_SINCE)
            .input_type_script(script_cell_index)
    );
}

#[test]
fn scenarios_agree_for_a_fixed_ring() {
    let created = vec![
        build_index_state_cell_data(2, false),
        build_info_cell_data(2, DataType::Timestamp, 1614828683),
    ];
    let tx = create_test_context(&created, false);
    assert_eq!(verify_tx_as(&tx, Variant::Fixed), Ok(2));

    let inputs_data = vec![
        build_index_state_cell_data(SUM_OF_INFO_CELLS - 1, false),
        build_info_cell_data(SUM_OF_INFO_CELLS - 1, DataType::BlockNumber, 10000),
    ];
    let outputs_data = vec![
        build_index_state_cell_data(0, false),
        build_info_cell_data(0, DataType::BlockNumber, 10003),
    ];
    let tx = create_test_context_with_info_inputs(&inputs_data, &outputs_data, 10003, false);
    assert_eq!(verify_tx_as(&tx, Variant::Fixed), Ok(2));

    let wrong = vec![
        build_index_state_cell_data(2, true),
        build_info_cell_data(2, DataType::BlockNumber, 1000),
    ];
    let tx = create_test_context(&wrong, false);
    assert_eq!(
        verify_tx_as(&tx, Variant::Fixed),
        Err(ScriptError::validation_failure(INDEX_STATE_DATA_LEN_ERROR).input_type_script(1))
    );
}

#[test]
fn update_at_the_wrap_boundary() {
    let inputs_data = vec![
        build_index_state_cell_data(11, false),
        build_info_cell_data(11, DataType::BlockNumber, 10000),
    ];
    let outputs_data = vec![
        build_index_state_cell_data(0, false),
        build_info_cell_data(0, DataType::BlockNumber, 10003),
    ];
    let tx = create_test_context_with_info_inputs(&inputs_data, &outputs_data, 10003, false);
    assert_eq!(verify_tx(&tx), Ok(2));

    let outputs_data = vec![
        build_index_state_cell_data(1, false),
        build_info_cell_data(1, DataType::BlockNumber, 10003),
    ];
    let tx = create_test_context_with_info_inputs(&inputs_data, &outputs_data, 10003, false);
    assert_eq!(
        verify_tx(&tx),
        Err(ScriptError::validation_failure(Error::IndexIncreaseError.code()).input_type_script(0))
    );
}

#[test]
fn ring_and_record_move_together() {
    for variant in [Variant::Fixed, Variant::Extended] {
        for position in 0..SUM_OF_INFO_CELLS {
            let next = (position + 1) % SUM_OF_INFO_CELLS;
            for ring_to in 0..=SUM_OF_INFO_CELLS {
                for record_to in 0..=SUM_OF_INFO_CELLS {
                    let inputs_data = vec![
                        build_index_state_cell_data(position, false),
                        build_info_cell_data(position, DataType::BlockNumber, 10000),
                    ];
                    let outputs_data = vec![
                        build_index_state_cell_data(ring_to, false),
                        build_info_cell_data(record_to, DataType::BlockNumber, 10003),
                    ];
                    let tx = create_test_context_with_info_inputs(
                        &inputs_data,
                        &outputs_data,
                        10003,
                        false,
                    );
                    let accepted = verify_tx_as(&tx, variant).is_ok();
                    assert_eq!(accepted, ring_to == next && record_to == next);
                }
            }
        }
    }
}
