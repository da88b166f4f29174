//! Cells, scripts and the resolved transaction that both the predicates and
//! the assembly steps work on.

use vstd::prelude::*;

verus! {

/// Length of a code hash, a transaction hash and a type hash.
pub const BYTE32_LEN: usize = 32;

/// `hash_type` of a script whose code is named by a type hash.
pub const HASH_TYPE_TYPE: u8 = 1;

/// `dep_type` of a cell dependency that points at code itself.
pub const DEP_TYPE_CODE: u8 = 0;

/// A lock or type predicate: code identified by a hash, plus arguments.
pub struct Script {
    pub code_hash: Vec<u8>,
    pub hash_type: u8,
    pub args: Vec<u8>,
}

pub ghost struct ScriptModel {
    pub code_hash: Seq<u8>,
    pub hash_type: u8,
    pub args: Seq<u8>,
}

impl View for Script {
    type V = ScriptModel;

    open spec fn view(&self) -> ScriptModel {
        ScriptModel { code_hash: self.code_hash@, hash_type: self.hash_type, args: self.args@ }
    }
}

pub open spec fn opt_script_view(s: Option<Script>) -> Option<ScriptModel> {
    match s {
        Some(s) => Some(s@),
        None => None,
    }
}

/// Copy of a byte vector.
pub fn copy_bytes(v: &Vec<u8>) -> (r: Vec<u8>)
    ensures
        r@ == v@,
{
    vstd::slice::slice_to_vec(v.as_slice())
}

/// Byte-wise equality of two byte strings.
pub fn bytes_eq(a: &[u8], b: &[u8]) -> (r: bool)
    ensures
        r == (a@ == b@),
{
    if a.len() != b.len() {
        return false;
    }
    let mut i: usize = 0;
    while i < a.len()
        invariant
            a@.len() == b@.len(),
            i <= a@.len(),
            a@.subrange(0, i as int) == b@.subrange(0, i as int),
        decreases a@.len() - i,
    {
        if a[i] != b[i] {
            assert(a@[i as int] != b@[i as int]);
            return false;
        }
        assert(a@.subrange(0, i + 1) == a@.subrange(0, i as int).push(a@[i as int]));
        assert(b@.subrange(0, i + 1) == b@.subrange(0, i as int).push(b@[i as int]));
        i = i + 1;
    }
    assert(a@ == a@.subrange(0, i as int));
    assert(b@ == b@.subrange(0, i as int));
    true
}

impl Script {
    pub fn new(code_hash: Vec<u8>, hash_type: u8, args: Vec<u8>) -> (r: Script)
        ensures
            r@ == (ScriptModel { code_hash: code_hash@, hash_type, args: args@ }),
    {
        Script { code_hash, hash_type, args }
    }

    pub fn copy(&self) -> (r: Script)
        ensures
            r@ == self@,
    {
        Script {
            code_hash: copy_bytes(&self.code_hash),
            hash_type: self.hash_type,
            args: copy_bytes(&self.args),
        }
    }

    /// Whether two scripts are the same predicate instance.
    pub fn same_as(&self, other: &Script) -> (r: bool)
        ensures
            r == (self@ == other@),
    {
        bytes_eq(self.code_hash.as_slice(), other.code_hash.as_slice()) && self.hash_type
            == other.hash_type && bytes_eq(self.args.as_slice(), other.args.as_slice())
    }
}


/// Reference to an output of an earlier transaction.
pub struct OutPoint {
    pub tx_hash: Vec<u8>,
    pub index: u32,
}

pub ghost struct OutPointModel {
    pub tx_hash: Seq<u8>,
    pub index: u32,
}

impl View for OutPoint {
    type V = OutPointModel;

    open spec fn view(&self) -> OutPointModel {
        OutPointModel { tx_hash: self.tx_hash@, index: self.index }
    }
}

impl OutPoint {
    pub fn copy(&self) -> (r: OutPoint)
        ensures
            r@ == self@,
    {
        OutPoint { tx_hash: copy_bytes(&self.tx_hash), index: self.index }
    }

    pub fn same_as(&self, other: &OutPoint) -> (r: bool)
        ensures
            r == (self@ == other@),
    {
        bytes_eq(self.tx_hash.as_slice(), other.tx_hash.as_slice()) && self.index == other.index
    }
}

/// A transaction input: the cell it consumes and its `since` restriction.
pub struct CellInput {
    pub since: u64,
    pub previous_output: OutPoint,
}

pub ghost struct CellInputModel {
    pub since: u64,
    pub previous_output: OutPointModel,
}

impl View for CellInput {
    type V = CellInputModel;

    open spec fn view(&self) -> CellInputModel {
        CellInputModel { since: self.since, previous_output: self.previous_output@ }
    }
}

impl CellInput {
    pub fn copy(&self) -> (r: CellInput)
        ensures
            r@ == self@,
    {
        CellInput { since: self.since, previous_output: self.previous_output.copy() }
    }
}

/// A cell: capacity, lock, optional type, and data.
pub struct Cell {
    pub capacity: u64,
    pub lock: Script,
    pub type_script: Option<Script>,
    pub data: Vec<u8>,
}

pub ghost struct CellModel {
    pub capacity: u64,
    pub lock: ScriptModel,
    pub type_script: Option<ScriptModel>,
    pub data: Seq<u8>,
}

impl View for Cell {
    type V = CellModel;

    open spec fn view(&self) -> CellModel {
        CellModel {
            capacity: self.capacity,
            lock: self.lock@,
            type_script: opt_script_view(self.type_script),
            data: self.data@,
        }
    }
}

pub fn copy_opt_script(s: &Option<Script>) -> (r: Option<Script>)
    ensures
        opt_script_view(r) == opt_script_view(*s),
{
    match s {
        Some(s) => Some(s.copy()),
        None => None,
    }
}

impl Cell {
    pub fn copy(&self) -> (r: Cell)
        ensures
            r@ == self@,
    {
        Cell {
            capacity: self.capacity,
            lock: self.lock.copy(),
            type_script: copy_opt_script(&self.type_script),
            data: copy_bytes(&self.data),
        }
    }
}

/// An input together with the live cell it consumes.
pub struct ResolvedInput {
    pub input: CellInput,
    pub cell: Cell,
}

pub ghost struct ResolvedInputModel {
    pub input: CellInputModel,
    pub cell: CellModel,
}

impl View for ResolvedInput {
    type V = ResolvedInputModel;

    open spec fn view(&self) -> ResolvedInputModel {
        ResolvedInputModel { input: self.input@, cell: self.cell@ }
    }
}

/// A block header, as far as this protocol reads it.
pub struct Header {
    pub hash: Vec<u8>,
    pub number: u64,
}

pub ghost struct HeaderModel {
    pub hash: Seq<u8>,
    pub number: u64,
}

impl View for Header {
    type V = HeaderModel;

    open spec fn view(&self) -> HeaderModel {
        HeaderModel { hash: self.hash@, number: self.number }
    }
}

impl Header {
    pub fn copy(&self) -> (r: Header)
        ensures
            r@ == self@,
    {
        Header { hash: copy_bytes(&self.hash), number: self.number }
    }
}

/// A read-only reference to a cell holding code.
pub struct CellDep {
    pub out_point: OutPoint,
    pub dep_type: u8,
}

pub ghost struct CellDepModel {
    pub out_point: OutPointModel,
    pub dep_type: u8,
}

impl View for CellDep {
    type V = CellDepModel;

    open spec fn view(&self) -> CellDepModel {
        CellDepModel { out_point: self.out_point@, dep_type: self.dep_type }
    }
}

impl CellDep {
    pub fn same_as(&self, other: &CellDep) -> (r: bool)
        ensures
            r == (self@ == other@),
    {
        self.out_point.same_as(&other.out_point) && self.dep_type == other.dep_type
    }
}

/// A transaction with its inputs resolved to the cells they consume: the
/// skeleton that the assembly steps fill, and what the predicates judge.
pub struct Transaction {
    pub cell_deps: Vec<CellDep>,
    pub inputs: Vec<ResolvedInput>,
    pub outputs: Vec<Cell>,
    pub header_deps: Vec<Header>,
}

pub ghost struct TransactionModel {
    pub cell_deps: Seq<CellDepModel>,
    pub inputs: Seq<ResolvedInputModel>,
    pub outputs: Seq<CellModel>,
    pub header_deps: Seq<HeaderModel>,
}

impl View for Transaction {
    type V = TransactionModel;

    open spec fn view(&self) -> TransactionModel {
        TransactionModel {
            cell_deps: self.cell_deps@.map_values(|d: CellDep| d@),
            inputs: self.inputs@.map_values(|i: ResolvedInput| i@),
            outputs: self.outputs@.map_values(|c: Cell| c@),
            header_deps: self.header_deps@.map_values(|h: Header| h@),
        }
    }
}

impl Transaction {
    /// An empty skeleton.
    pub fn new() -> (r: Transaction)
        ensures
            r@.cell_deps.len() == 0,
            r@.inputs.len() == 0,
            r@.outputs.len() == 0,
            r@.header_deps.len() == 0,
    {
        Transaction {
            cell_deps: Vec::new(),
            inputs: Vec::new(),
            outputs: Vec::new(),
            header_deps: Vec::new(),
        }
    }

    /// Appends an output and returns its index.
    pub fn push_output(&mut self, cell: Cell) -> (r: usize)
        requires
            old(self)@.outputs.len() < usize::MAX,
        ensures
            r == old(self)@.outputs.len(),
            final(self)@ == with_output(old(self)@, cell@),
    {
        let r = self.outputs.len();
        self.outputs.push(cell);
        assert(self@.outputs =~= old(self)@.outputs.push(cell@));
        r
    }

    /// Appends an input and returns its index.
    pub fn push_input(&mut self, input: ResolvedInput) -> (r: usize)
        requires
            old(self)@.inputs.len() < usize::MAX,
        ensures
            r == old(self)@.inputs.len(),
            final(self)@ == with_input(old(self)@, input@),
    {
        let r = self.inputs.len();
        self.inputs.push(input);
        assert(self@.inputs =~= old(self)@.inputs.push(input@));
        r
    }

    /// Adds a cell dependency unless the skeleton already has it.
    pub fn add_cell_dep(&mut self, dep: CellDep)
        ensures
            final(self)@ == with_cell_dep(old(self)@, dep@),
    {
        let mut i: usize = 0;
        while i < self.cell_deps.len()
            invariant
                self@ == old(self)@,
                i <= self@.cell_deps.len(),
                forall|j: int| 0 <= j < i ==> self@.cell_deps[j] != dep@,
            decreases self@.cell_deps.len() - i,
        {
            if self.cell_deps[i].same_as(&dep) {
                assert(self@.cell_deps[i as int] == dep@);
                return;
            }
            i = i + 1;
        }
        self.cell_deps.push(dep);
        assert(self@.cell_deps =~= old(self)@.cell_deps.push(dep@));
    }

    /// Adds a header dependency unless one with the same hash is there.
    pub fn add_header_dep(&mut self, header: Header)
        ensures
            final(self)@ == with_header_dep(old(self)@, header@),
    {
        let mut i: usize = 0;
        while i < self.header_deps.len()
            invariant
                self@ == old(self)@,
                i <= self@.header_deps.len(),
                forall|j: int| 0 <= j < i ==> self@.header_deps[j].hash != header@.hash,
            decreases self@.header_deps.len() - i,
        {
            if bytes_eq(self.header_deps[i].hash.as_slice(), header.hash.as_slice()) {
                assert(self@.header_deps[i as int].hash == header@.hash);
                return;
            }
            i = i + 1;
        }
        self.header_deps.push(header);
        assert(self@.header_deps =~= old(self)@.header_deps.push(header@));
    }
}

/// `tx` with `c` appended to its outputs.
pub open spec fn with_output(tx: TransactionModel, c: CellModel) -> TransactionModel {
    TransactionModel { outputs: tx.outputs.push(c), ..tx }
}

/// `tx` with `i` appended to its inputs.
pub open spec fn with_input(tx: TransactionModel, i: ResolvedInputModel) -> TransactionModel {
    TransactionModel { inputs: tx.inputs.push(i), ..tx }
}

/// `tx` with the cell dependency `d`, added only if it is not there yet.
pub open spec fn with_cell_dep(tx: TransactionModel, d: CellDepModel) -> TransactionModel {
    if tx.cell_deps.contains(d) {
        tx
    } else {
        TransactionModel { cell_deps: tx.cell_deps.push(d), ..tx }
    }
}

/// `tx` with the header dependency `h`, added only if no header of the same
/// hash is there yet.
pub open spec fn with_header_dep(tx: TransactionModel, h: HeaderModel) -> TransactionModel {
    if exists|j: int| 0 <= j < tx.header_deps.len() && #[trigger] tx.header_deps[j].hash == h.hash {
        tx
    } else {
        TransactionModel { header_deps: tx.header_deps.push(h), ..tx }
    }
}

/// The cells that a transaction consumes, in input order.
pub open spec fn input_cells(tx: TransactionModel) -> Seq<CellModel> {
    tx.inputs.map_values(|i: ResolvedInputModel| i.cell)
}

/// Index of the first cell from `k` on whose type is exactly `s`.
pub open spec fn find_typed(cells: Seq<CellModel>, s: ScriptModel, k: int) -> Option<int>
    decreases cells.len() - k,
{
    if k < 0 || k >= cells.len() {
        None
    } else if cells[k].type_script == Some(s) {
        Some(k)
    } else {
        find_typed(cells, s, k + 1)
    }
}

/// Whether a cell has a type whose code hash is `code`.
pub open spec fn has_type_code(c: CellModel, code: Seq<u8>) -> bool {
    c.type_script is Some && c.type_script->0.code_hash == code
}

/// Index of the first cell from `k` on whose type has code hash `code`.
pub open spec fn find_type_code(cells: Seq<CellModel>, code: Seq<u8>, k: int) -> Option<int>
    decreases cells.len() - k,
{
    if k < 0 || k >= cells.len() {
        None
    } else if has_type_code(cells[k], code) {
        Some(k)
    } else {
        find_type_code(cells, code, k + 1)
    }
}

pub proof fn lemma_find_typed(cells: Seq<CellModel>, s: ScriptModel, k: int)
    requires
        0 <= k,
    ensures
        match find_typed(cells, s, k) {
            Some(i) => k <= i < cells.len() && cells[i].type_script == Some(s) && forall|j: int|
                k <= j < i ==> cells[j].type_script != Some(s),
            None => forall|j: int| k <= j < cells.len() ==> cells[j].type_script != Some(s),
        },
    decreases cells.len() - k,
{
    if k < cells.len() && cells[k].type_script != Some(s) {
        lemma_find_typed(cells, s, k + 1);
    }
}

pub proof fn lemma_find_type_code(cells: Seq<CellModel>, code: Seq<u8>, k: int)
    requires
        0 <= k,
    ensures
        match find_type_code(cells, code, k) {
            Some(i) => k <= i < cells.len() && has_type_code(cells[i], code) && forall|j: int|
                k <= j < i ==> !has_type_code(cells[j], code),
            None => forall|j: int| k <= j < cells.len() ==> !has_type_code(cells[j], code),
        },
    decreases cells.len() - k,
{
    if k < cells.len() && !has_type_code(cells[k], code) {
        lemma_find_type_code(cells, code, k + 1);
    }
}

/// The search for a type finds the first cell that has it.
pub proof fn lemma_find_typed_at(cells: Seq<CellModel>, s: ScriptModel, n: int)
    requires
        0 <= n < cells.len(),
        cells[n].type_script == Some(s),
        forall|j: int| 0 <= j < n ==> cells[j].type_script != Some(s),
    ensures
        find_typed(cells, s, 0) == Some(n),
{
    lemma_find_typed(cells, s, 0);
}

/// The search for a type finds nothing when no cell has it.
pub proof fn lemma_find_typed_absent(cells: Seq<CellModel>, s: ScriptModel)
    requires
        forall|j: int| 0 <= j < cells.len() ==> cells[j].type_script != Some(s),
    ensures
        find_typed(cells, s, 0) is None,
{
    lemma_find_typed(cells, s, 0);
}

/// The search for a type code finds the first cell that has it.
pub proof fn lemma_find_type_code_at(cells: Seq<CellModel>, code: Seq<u8>, n: int)
    requires
        0 <= n < cells.len(),
        has_type_code(cells[n], code),
        forall|j: int| 0 <= j < n ==> !has_type_code(cells[j], code),
    ensures
        find_type_code(cells, code, 0) == Some(n),
{
    lemma_find_type_code(cells, code, 0);
}

fn type_is(t: &Option<Script>, s: &Script) -> (r: bool)
    ensures
        r == (opt_script_view(*t) == Some(s@)),
{
    match t {
        Some(t) => t.same_as(s),
        None => false,
    }
}

fn type_code_is(t: &Option<Script>, code: &Vec<u8>) -> (r: bool)
    ensures
        r == (opt_script_view(*t) is Some && opt_script_view(*t)->0.code_hash == code@),
{
    match t {
        Some(t) => bytes_eq(t.code_hash.as_slice(), code.as_slice()),
        None => false,
    }
}

/// Index of the first output whose type is exactly `s`.
pub fn output_with_type(tx: &Transaction, s: &Script) -> (r: Option<usize>)
    ensures
        r matches Some(i) ==> find_typed(tx@.outputs, s@, 0) == Some(i as int),
        r is None ==> find_typed(tx@.outputs, s@, 0) is None,
{
    let mut i: usize = 0;
    while i < tx.outputs.len()
        invariant
            i <= tx@.outputs.len(),
            find_typed(tx@.outputs, s@, 0) == find_typed(tx@.outputs, s@, i as int),
        decreases tx@.outputs.len() - i,
    {
        if type_is(&tx.outputs[i].type_script, s) {
            return Some(i);
        }
        i = i + 1;
    }
    None
}

/// Index of the first input cell whose type is exactly `s`.
pub fn input_with_type(tx: &Transaction, s: &Script) -> (r: Option<usize>)
    ensures
        r matches Some(i) ==> find_typed(input_cells(tx@), s@, 0) == Some(i as int),
        r is None ==> find_typed(input_cells(tx@), s@, 0) is None,
{
    let mut i: usize = 0;
    while i < tx.inputs.len()
        invariant
            i <= tx@.inputs.len(),
            find_typed(input_cells(tx@), s@, 0) == find_typed(input_cells(tx@), s@, i as int),
        decreases tx@.inputs.len() - i,
    {
        if type_is(&tx.inputs[i].cell.type_script, s) {
            return Some(i);
        }
        i = i + 1;
    }
    None
}

/// Index of the first output whose type has code hash `code`.
pub fn output_with_type_code(tx: &Transaction, code: &Vec<u8>) -> (r: Option<usize>)
    ensures
        r matches Some(i) ==> find_type_code(tx@.outputs, code@, 0) == Some(i as int),
        r is None ==> find_type_code(tx@.outputs, code@, 0) is None,
{
    let mut i: usize = 0;
    while i < tx.outputs.len()
        invariant
            i <= tx@.outputs.len(),
            find_type_code(tx@.outputs, code@, 0) == find_type_code(tx@.outputs, code@, i as int),
        decreases tx@.outputs.len() - i,
    {
        if type_code_is(&tx.outputs[i].type_script, code) {
            return Some(i);
        }
        i = i + 1;
    }
    None
}

/// Index of the first input cell whose type has code hash `code`.
pub fn input_with_type_code(tx: &Transaction, code: &Vec<u8>) -> (r: Option<usize>)
    ensures
        r matches Some(i) ==> find_type_code(input_cells(tx@), code@, 0) == Some(i as int),
        r is None ==> find_type_code(input_cells(tx@), code@, 0) is None,
{
    let mut i: usize = 0;
    while i < tx.inputs.len()
        invariant
            i <= tx@.inputs.len(),
            find_type_code(input_cells(tx@), code@, 0) == find_type_code(
                input_cells(tx@),
                code@,
                i as int,
            ),
        decreases tx@.inputs.len() - i,
    {
        if type_code_is(&tx.inputs[i].cell.type_script, code) {
            return Some(i);
        }
        i = i + 1;
    }
    None
}

} // verus!
