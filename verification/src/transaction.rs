//! A transaction as a validator sees it: the answers of the ledger to the
//! queries that a validator may ask.
//!
//! A validator runs for one script, its *identity*. The ledger lets it read
//! the records that the transaction consumes (its inputs) and creates (its
//! outputs), and, apart from those, the inputs and outputs that carry the
//! validator's own script: its *group*. Of a record it can read the data and
//! the type script, and of an input the time lock and the reference to the
//! record that it consumes.

use vstd::prelude::*;
use crate::error::SysError;

verus! {

/// The list of records that a query reads from.
#[derive(Debug, PartialEq, Eq, Copy, Clone, Structural)]
pub enum Source {
    /// Every record that the transaction consumes.
    Input,
    /// Every record that the transaction creates.
    Output,
    /// The consumed records that carry the validator's script.
    GroupInput,
    /// The created records that carry the validator's script.
    GroupOutput,
}

/// A type script: the code that governs a record, and the arguments that tell
/// one instance of that code from another.
#[derive(Debug, Clone)]
pub struct Script {
    /// Identifies the code. Two scripts name the same validator when these agree.
    pub code_hash: Vec<u8>,
    /// Identifies the instance: the ring that the record belongs to.
    pub args: Vec<u8>,
}

/// A record of the ledger.
#[derive(Debug, Clone)]
pub struct Cell {
    /// The script that governs the record, if it has one.
    pub type_script: Option<Script>,
    /// The payload of the record.
    pub data: Vec<u8>,
}

/// A record that the transaction consumes, with the time lock of its consumption.
#[derive(Debug, Clone)]
pub struct CellInput {
    /// The consumed record.
    pub cell: Cell,
    /// The time lock: the ledger admits the transaction only once it has passed.
    pub since: u64,
    /// The reference to the consumed record. No two records of the ledger
    /// have the same, and a record is consumed once.
    pub out_point: Vec<u8>,
}

/// What the ledger answers to the queries of one run of a validator.
#[derive(Debug, Clone)]
pub struct Transaction {
    /// The script that the validator runs for.
    pub script: Script,
    /// The consumed records, in the order of the transaction.
    pub inputs: Vec<CellInput>,
    /// The created records, in the order of the transaction.
    pub outputs: Vec<Cell>,
    /// The consumed records of the validator's group.
    pub group_inputs: Vec<CellInput>,
    /// The created records of the validator's group.
    pub group_outputs: Vec<Cell>,
}

/// The mathematical value of a [`Script`].
pub struct ScriptView {
    pub code_hash: Seq<u8>,
    pub args: Seq<u8>,
}

/// The mathematical value of a [`Cell`].
pub struct CellView {
    pub type_script: Option<ScriptView>,
    pub data: Seq<u8>,
}

/// The mathematical value of a [`CellInput`].
pub struct CellInputView {
    pub cell: CellView,
    pub since: u64,
    pub out_point: Seq<u8>,
}

/// The mathematical value of a [`Transaction`].
pub struct TransactionView {
    pub script: ScriptView,
    pub inputs: Seq<CellInputView>,
    pub outputs: Seq<CellView>,
    pub group_inputs: Seq<CellInputView>,
    pub group_outputs: Seq<CellView>,
}

impl View for Script {
    type V = ScriptView;

    open spec fn view(&self) -> ScriptView {
        ScriptView { code_hash: self.code_hash@, args: self.args@ }
    }
}

impl View for Cell {
    type V = CellView;

    open spec fn view(&self) -> CellView {
        CellView {
            type_script: match self.type_script {
                Some(script) => Some(script@),
                None => None,
            },
            data: self.data@,
        }
    }
}

impl View for CellInput {
    type V = CellInputView;

    open spec fn view(&self) -> CellInputView {
        CellInputView { cell: self.cell@, since: self.since, out_point: self.out_point@ }
    }
}

impl View for Transaction {
    type V = TransactionView;

    open spec fn view(&self) -> TransactionView {
        TransactionView {
            script: self.script@,
            inputs: self.inputs@.map_values(|input: CellInput| input@),
            outputs: self.outputs@.map_values(|cell: Cell| cell@),
            group_inputs: self.group_inputs@.map_values(|input: CellInput| input@),
            group_outputs: self.group_outputs@.map_values(|cell: Cell| cell@),
        }
    }
}

impl TransactionView {
    /// The records of a source.
    pub open spec fn cells(self, source: Source) -> Seq<CellView> {
        match source {
            Source::Input => self.inputs.map_values(|input: CellInputView| input.cell),
            Source::Output => self.outputs,
            Source::GroupInput => self.group_inputs.map_values(|input: CellInputView| input.cell),
            Source::GroupOutput => self.group_outputs,
        }
    }

    /// The inputs of a source: those of the transaction, those of the group,
    /// and none for a source of outputs.
    pub open spec fn inputs_of(self, source: Source) -> Seq<CellInputView> {
        match source {
            Source::Input => self.inputs,
            Source::Output => Seq::empty(),
            Source::GroupInput => self.group_inputs,
            Source::GroupOutput => Seq::empty(),
        }
    }

    /// The answer to "the data of record `index` of `source`".
    pub open spec fn cell_data(self, index: int, source: Source) -> Result<Seq<u8>, SysError> {
        if 0 <= index < self.cells(source).len() {
            Ok(self.cells(source)[index].data)
        } else {
            Err(SysError::IndexOutOfBound)
        }
    }

    /// The answer to "the type script of record `index` of `source`".
    pub open spec fn cell_type(self, index: int, source: Source) -> Result<
        Option<ScriptView>,
        SysError,
    > {
        if 0 <= index < self.cells(source).len() {
            Ok(self.cells(source)[index].type_script)
        } else {
            Err(SysError::IndexOutOfBound)
        }
    }

    /// The answer to "the time lock of input `index` of `source`".
    pub open spec fn input_since(self, index: int, source: Source) -> Result<u64, SysError> {
        if 0 <= index < self.inputs_of(source).len() {
            Ok(self.inputs_of(source)[index].since)
        } else {
            Err(SysError::IndexOutOfBound)
        }
    }

    /// The answer to "the reference of input `index` of `source`".
    pub open spec fn input_out_point(self, index: int, source: Source) -> Result<
        Seq<u8>,
        SysError,
    > {
        if 0 <= index < self.inputs_of(source).len() {
            Ok(self.inputs_of(source)[index].out_point)
        } else {
            Err(SysError::IndexOutOfBound)
        }
    }

    /// Whether record `index` of `source` is governed by the validator's
    /// code: it has a type script whose code is that of the validator's
    /// script, whatever its arguments.
    pub open spec fn runs_own_code(self, index: int, source: Source) -> bool {
        &&& 0 <= index < self.cells(source).len()
        &&& self.cells(source)[index].type_script matches Some(script)
        &&& script.same_code(self.script)
    }

    /// Whether some record of `source` is governed by the validator's code.
    pub open spec fn type_script_exists(self, source: Source) -> bool {
        exists|index: int| #[trigger] self.runs_own_code(index, source)
    }

    /// Whether the groups hold what the ledger puts into them: records of
    /// the transaction that carry the validator's script.
    pub open spec fn groups_belong(self) -> bool {
        &&& forall|i: int|
            0 <= i < self.group_inputs.len() ==> (#[trigger] self.group_inputs[i]).cell.type_script
                == Some(self.script) && exists|j: int|
                0 <= j < self.inputs.len() && self.inputs[j] == self.group_inputs[i]
        &&& forall|i: int|
            0 <= i < self.group_outputs.len() ==> (#[trigger] self.group_outputs[i]).type_script
                == Some(self.script) && exists|j: int|
                0 <= j < self.outputs.len() && self.outputs[j] == self.group_outputs[i]
    }
}

impl ScriptView {
    /// Whether two scripts name the same code.
    pub open spec fn same_code(self, other: ScriptView) -> bool {
        self.code_hash == other.code_hash
    }
}

impl Script {
    /// Whether two scripts name the same code, whatever their arguments.
    pub fn same_code(&self, other: &Script) -> (same: bool)
        ensures
            same == self@.same_code(other@),
    {
        let same = self.code_hash == other.code_hash;
        proof {
            if same {
                assert(self.code_hash@ =~= other.code_hash@);
            }
        }
        same
    }

    /// Whether the arguments of the script are `args`.
    pub fn same_args(&self, args: &Vec<u8>) -> (same: bool)
        ensures
            same == (self@.args == args@),
    {
        let same = &self.args == args;
        proof {
            if same {
                assert(self.args@ =~= args@);
            }
        }
        same
    }
}

impl Transaction {
    /// The script that the validator runs for.
    pub fn load_script(&self) -> (script: &Script)
        ensures
            script@ == self@.script,
    {
        &self.script
    }

    /// The number of records of a source.
    pub fn len(&self, source: Source) -> (n: usize)
        ensures
            n == self@.cells(source).len(),
    {
        match source {
            Source::Input => self.inputs.len(),
            Source::Output => self.outputs.len(),
            Source::GroupInput => self.group_inputs.len(),
            Source::GroupOutput => self.group_outputs.len(),
        }
    }

    /// The record at `index` of `source`; `None` when the source is shorter.
    fn cell(&self, index: usize, source: Source) -> (found: Option<&Cell>)
        ensures
            match found {
                Some(cell) => index < self@.cells(source).len() && cell@ == self@.cells(
                    source,
                )[index as int],
                None => index >= self@.cells(source).len(),
            },
    {
        match source {
            Source::Input => if index < self.inputs.len() {
                Some(&self.inputs[index].cell)
            } else {
                None
            },
            Source::Output => if index < self.outputs.len() {
                Some(&self.outputs[index])
            } else {
                None
            },
            Source::GroupInput => if index < self.group_inputs.len() {
                Some(&self.group_inputs[index].cell)
            } else {
                None
            },
            Source::GroupOutput => if index < self.group_outputs.len() {
                Some(&self.group_outputs[index])
            } else {
                None
            },
        }
    }

    /// The data of the record at `index` of `source`. Fails with
    /// `IndexOutOfBound`, and with nothing else, when the source holds no
    /// record there.
    pub fn load_cell_data(&self, index: usize, source: Source) -> (answer: Result<
        &Vec<u8>,
        SysError,
    >)
        ensures
            match answer {
                Ok(data) => self@.cell_data(index as int, source) == Ok::<Seq<u8>, SysError>(
                    data@,
                ),
                Err(fault) => self@.cell_data(index as int, source) == Err::<Seq<u8>, SysError>(
                    fault,
                ),
            },
    {
        match self.cell(index, source) {
            Some(cell) => Ok(&cell.data),
            None => Err(SysError::IndexOutOfBound),
        }
    }

    /// The type script of the record at `index` of `source`: `Ok(None)` for
    /// a record without one. Fails with `IndexOutOfBound`, and with nothing
    /// else, when the source holds no record there.
    pub fn load_cell_type(&self, index: usize, source: Source) -> (answer: Result<
        Option<&Script>,
        SysError,
    >)
        ensures
            match answer {
                Ok(Some(script)) => self@.cell_type(index as int, source) == Ok::<
                    Option<ScriptView>,
                    SysError,
                >(Some(script@)),
                Ok(None) => self@.cell_type(index as int, source) == Ok::<
                    Option<ScriptView>,
                    SysError,
                >(None),
                Err(fault) => self@.cell_type(index as int, source) == Err::<
                    Option<ScriptView>,
                    SysError,
                >(fault),
            },
    {
        match self.cell(index, source) {
            Some(cell) => match &cell.type_script {
                Some(script) => Ok(Some(script)),
                None => Ok(None),
            },
            None => Err(SysError::IndexOutOfBound),
        }
    }

    /// The input at `index` of `source`; `None` when the source is shorter,
    /// as a source of outputs always is.
    fn input(&self, index: usize, source: Source) -> (found: Option<&CellInput>)
        ensures
            match found {
                Some(input) => index < self@.inputs_of(source).len() && input@ == self@.inputs_of(
                    source,
                )[index as int],
                None => index >= self@.inputs_of(source).len(),
            },
    {
        match source {
            Source::Input => if index < self.inputs.len() {
                Some(&self.inputs[index])
            } else {
                None
            },
            Source::GroupInput => if index < self.group_inputs.len() {
                Some(&self.group_inputs[index])
            } else {
                None
            },
            Source::Output => None,
            Source::GroupOutput => None,
        }
    }

    /// The time lock of the input at `index` of `source`. Fails with
    /// `IndexOutOfBound`, and with nothing else, when the source holds no
    /// input there; a source of outputs holds none.
    pub fn load_input_since(&self, index: usize, source: Source) -> (answer: Result<u64, SysError>)
        ensures
            answer == self@.input_since(index as int, source),
    {
        match self.input(index, source) {
            Some(input) => Ok(input.since),
            None => Err(SysError::IndexOutOfBound),
        }
    }

    /// The reference of the input at `index` of `source` to the record that
    /// it consumes. Fails with `IndexOutOfBound`, and with nothing else,
    /// when the source holds no input there; a source of outputs holds none.
    pub fn load_input_out_point(&self, index: usize, source: Source) -> (answer: Result<
        &Vec<u8>,
        SysError,
    >)
        ensures
            match answer {
                Ok(out_point) => self@.input_out_point(index as int, source) == Ok::<
                    Seq<u8>,
                    SysError,
                >(out_point@),
                Err(fault) => self@.input_out_point(index as int, source) == Err::<
                    Seq<u8>,
                    SysError,
                >(fault),
            },
    {
        match self.input(index, source) {
            Some(input) => Ok(&input.out_point),
            None => Err(SysError::IndexOutOfBound),
        }
    }

    /// Whether some record of `source` is governed by the validator's code.
    /// The records are compared by the code of their type script alone, so a
    /// record of another instance of the same validator counts.
    pub fn check_type_script_exists(&self, source: Source) -> (found: bool)
        ensures
            found == self@.type_script_exists(source),
    {
        let script = self.load_script();
        let count = self.len(source);
        let mut index: usize = 0;
        while index < count
            invariant
                index <= count,
                count == self@.cells(source).len(),
                script@ == self@.script,
                forall|i: int| 0 <= i < index ==> !self@.runs_own_code(i, source),
            decreases count - index,
        {
            match self.load_cell_type(index, source) {
                Ok(Some(type_script)) => {
                    if type_script.same_code(script) {
                        assert(self@.runs_own_code(index as int, source));
                        return true;
                    }
                },
                _ => {},
            }
            index += 1;
        }
        false
    }
}

} // verus!
