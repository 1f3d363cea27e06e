//! The mid-level IR that the text code generator reads: types, constants,
//! operands, instructions, terminators, basic blocks, functions and
//! programs.

use vstd::prelude::*;

verus! {

/// MIR types.
#[derive(Debug)]
pub enum MirType {
    I32,
    I64,
    U32,
    U64,
    F64,
    Bool,
    String,
    Unit,
    /// Unicode scalar value
    Char,
    /// Struct value with named fields
    Struct { name: String, fields: Vec<(String, Box<MirType>)> },
    /// Pointer to a named struct
    StructPtr(String),
    /// Enum with named variants and their field types
    Enum { name: String, variants: Vec<(String, Vec<Box<MirType>>)> },
    /// Array with an optional fixed size
    Array { element_type: Box<MirType>, size: Option<usize> },
    /// Typed pointer
    Ptr(Box<MirType>),
    /// Tuple of element types
    Tuple(Vec<Box<MirType>>),
}

/// A floating-point constant: its IEEE-754 bits; its rendering in
/// scientific notation with six digits after the point (as Rust's
/// `{:.6e}` writes it, e.g. `4.000000e0`), used when it is finite; and its
/// shortest rendering in scientific notation (as `{:e}` writes it, e.g.
/// `4e0`).
#[derive(Debug, Clone)]
pub struct FloatConst {
    pub bits: u64,
    pub text: String,
    pub short: String,
}

impl FloatConst {
    /// A float constant from its bits and its two scientific-notation
    /// texts.
    pub fn new(bits: u64, text: &str, short: &str) -> (f: FloatConst)
        ensures
            f.bits == bits,
            f.text@ == text@,
            f.short@ == short@,
    {
        FloatConst { bits, text: text.to_owned(), short: short.to_owned() }
    }
}

/// MIR constants.
#[derive(Debug, Clone)]
pub enum Constant {
    Int(i64),
    Float(FloatConst),
    Bool(bool),
    String(String),
    Char(char),
    Unit,
}

/// A named storage location (parameter, local or temporary).
#[derive(Debug, Clone)]
pub struct Place {
    pub name: String,
}

impl Place {
    /// The place named `name`.
    pub fn new(name: &str) -> (p: Place)
        ensures
            p.name@ == name@,
    {
        Place { name: name.to_owned() }
    }
}

/// An instruction operand.
#[derive(Debug, Clone)]
pub enum Operand {
    Place(Place),
    Constant(Constant),
}

/// Binary operators.
#[derive(Debug, Clone, Copy, PartialEq, Eq, Structural)]
pub enum MirBinOp {
    Add,
    Sub,
    Mul,
    Div,
    Mod,
    AddWrap,
    SubWrap,
    MulWrap,
    AddChecked,
    SubChecked,
    MulChecked,
    AddSat,
    SubSat,
    MulSat,
    FAdd,
    FSub,
    FMul,
    FDiv,
    Eq,
    Ne,
    Lt,
    Gt,
    Le,
    Ge,
    FEq,
    FNe,
    FLt,
    FGt,
    FLe,
    FGe,
    And,
    Or,
    Shl,
    Shr,
    Band,
    Bor,
    Bxor,
    Implies,
}

/// Unary operators.
#[derive(Debug, Clone, Copy, PartialEq, Eq, Structural)]
pub enum MirUnaryOp {
    Neg,
    FNeg,
    Not,
    Bnot,
}

/// MIR instructions.
#[derive(Debug)]
pub enum MirInst {
    /// `dest = value`
    Const { dest: Place, value: Constant },
    /// `dest = src`
    Copy { dest: Place, src: Place },
    /// `dest = lhs op rhs`
    BinOp { dest: Place, op: MirBinOp, lhs: Operand, rhs: Operand },
    /// `dest = op src`
    UnaryOp { dest: Place, op: MirUnaryOp, src: Operand },
    /// `dest = func(args)`
    Call { dest: Option<Place>, func: String, args: Vec<Operand>, is_tail: bool },
    /// `dest = phi [value, label]...`
    Phi { dest: Place, values: Vec<(Operand, String)> },
    /// `dest = src as to_ty`
    Cast { dest: Place, src: Operand, from_ty: MirType, to_ty: MirType },
    /// `dest = ptr + offset` in elements of `element_type`
    PtrOffset { dest: Place, ptr: Operand, offset: Operand, element_type: MirType },
    /// `dest` = a stack array of `size` uninitialised elements
    ArrayAlloc { dest: Place, element_type: MirType, size: usize },
    /// `dest = *ptr`
    PtrLoad { dest: Place, ptr: Operand, element_type: MirType },
    /// `*ptr = value`
    PtrStore { ptr: Operand, value: Operand, element_type: MirType },
    /// `dest` = a stack array holding `elements`
    ArrayInit { dest: Place, element_type: MirType, elements: Vec<Operand> },
    /// `dest = array[index]`
    IndexLoad { dest: Place, array: Place, index: Operand, element_type: MirType },
    /// `array[index] = value`
    IndexStore { array: Place, index: Operand, value: Operand, element_type: MirType },
    /// `dest = tuple.index`
    TupleExtract { dest: Place, tuple: Place, index: usize, element_type: MirType },
    /// `dest = base.field`, the field at `field_index` of `struct_name`
    FieldAccess { dest: Place, base: Place, field: String, field_index: usize, struct_name: String },
    /// `base.field = value`, the field at `field_index` of `struct_name`
    FieldStore { base: Place, field: String, field_index: usize, struct_name: String, value: Operand },
    /// `dest = enum_name::variant(args)`
    EnumVariant { dest: Place, enum_name: String, variant: String, args: Vec<Operand> },
    /// `dest = (elements...)`, each element with its type
    TupleInit { dest: Place, elements: Vec<(MirType, Operand)> },
    /// `dest = struct_name { field: value, ... }`
    StructInit { dest: Place, struct_name: String, fields: Vec<(String, Operand)> },
    /// `dest = spawn func(captures)`; the first capture holds the result
    ThreadSpawn { dest: Place, func: String, captures: Vec<Operand> },
    /// `dest = join(handle)`
    ThreadJoin { dest: Option<Place>, handle: Operand },
    /// `dest = Mutex::new(initial_value)`
    MutexNew { dest: Place, initial_value: Operand },
    /// `dest = mutex.lock()`
    MutexLock { dest: Place, mutex: Operand },
    /// `mutex.unlock(new_value)`
    MutexUnlock { mutex: Operand, new_value: Operand },
    /// `dest = mutex.try_lock()`
    MutexTryLock { dest: Place, mutex: Operand },
    /// `mutex.free()`
    MutexFree { mutex: Operand },
    /// `dest = Arc::new(value)`
    ArcNew { dest: Place, value: Operand },
    /// `dest = arc.clone()`
    ArcClone { dest: Place, arc: Operand },
    /// `dest = *arc`
    ArcGet { dest: Place, arc: Operand },
    /// `drop(arc)`
    ArcDrop { arc: Operand },
    /// `dest = Arc::strong_count(arc)`
    ArcStrongCount { dest: Place, arc: Operand },
    /// `dest = Atomic::new(value)`
    AtomicNew { dest: Place, value: Operand },
    /// `dest = ptr.load()`
    AtomicLoad { dest: Place, ptr: Operand },
    /// `ptr.store(value)`
    AtomicStore { ptr: Operand, value: Operand },
    /// `dest = ptr.fetch_add(delta)`
    AtomicFetchAdd { dest: Place, ptr: Operand, delta: Operand },
    /// `dest = ptr.fetch_sub(delta)`
    AtomicFetchSub { dest: Place, ptr: Operand, delta: Operand },
    /// `dest = ptr.swap(new_value)`
    AtomicSwap { dest: Place, ptr: Operand, new_value: Operand },
    /// `dest = ptr.compare_exchange(expected, new_value)`
    AtomicCompareExchange { dest: Place, ptr: Operand, expected: Operand, new_value: Operand },
    /// `(sender_dest, receiver_dest) = channel(capacity)`
    ChannelNew { sender_dest: Place, receiver_dest: Place, capacity: Operand },
    /// `sender.send(value)`
    ChannelSend { sender: Operand, value: Operand },
    /// `dest = receiver.recv()`
    ChannelRecv { dest: Place, receiver: Operand },
    /// `dest = sender.try_send(value)`
    ChannelTrySend { dest: Place, sender: Operand, value: Operand },
    /// `dest = receiver.try_recv()`
    ChannelTryRecv { dest: Place, receiver: Operand },
    /// `dest = receiver.recv_timeout(timeout_ms)`
    ChannelRecvTimeout { dest: Place, receiver: Operand, timeout_ms: Operand },
    /// `dest = block_on(future)`
    BlockOn { dest: Place, future: Operand },
    /// `dest = sender.send_timeout(value, timeout_ms)`
    ChannelSendTimeout { dest: Place, sender: Operand, value: Operand, timeout_ms: Operand },
    /// `sender.close()`
    ChannelClose { sender: Operand },
    /// `dest = receiver.is_closed()`
    ChannelIsClosed { dest: Place, receiver: Operand },
    /// `dest = receiver.recv_opt()`
    ChannelRecvOpt { dest: Place, receiver: Operand },
    /// `dest = sender.clone()`
    SenderClone { dest: Place, sender: Operand },
    /// `dest = RwLock::new(initial_value)`
    RwLockNew { dest: Place, initial_value: Operand },
    /// `dest = rwlock.read()`
    RwLockRead { dest: Place, rwlock: Operand },
    /// `rwlock.read_unlock()`
    RwLockReadUnlock { rwlock: Operand },
    /// `dest = rwlock.write()`
    RwLockWrite { dest: Place, rwlock: Operand },
    /// `rwlock.write_unlock(value)`
    RwLockWriteUnlock { rwlock: Operand, value: Operand },
    /// `dest = Barrier::new(count)`
    BarrierNew { dest: Place, count: Operand },
    /// `dest = barrier.wait()`
    BarrierWait { dest: Place, barrier: Operand },
    /// `dest = Condvar::new()`
    CondvarNew { dest: Place },
    /// `dest = condvar.wait(mutex)`
    CondvarWait { dest: Place, condvar: Operand, mutex: Operand },
    /// `condvar.notify_one()`
    CondvarNotifyOne { condvar: Operand },
    /// `condvar.notify_all()`
    CondvarNotifyAll { condvar: Operand },
    /// `dest = AsyncFile::open(path)`
    AsyncFileOpen { dest: Place, path: Operand },
    /// `dest = file.read()`
    AsyncFileRead { dest: Place, file: Operand },
    /// `file.write(content)`
    AsyncFileWrite { file: Operand, content: Operand },
    /// `file.close()`
    AsyncFileClose { file: Operand },
    /// `dest = AsyncSocket::connect(host, port)`
    AsyncSocketConnect { dest: Place, host: Operand, port: Operand },
    /// `dest = socket.read()`
    AsyncSocketRead { dest: Place, socket: Operand },
    /// `socket.write(content)`
    AsyncSocketWrite { socket: Operand, content: Operand },
    /// `socket.close()`
    AsyncSocketClose { socket: Operand },
    /// `dest = ThreadPool::new(size)`
    ThreadPoolNew { dest: Place, size: Operand },
    /// `pool.execute(task)`
    ThreadPoolExecute { pool: Operand, task: Operand },
    /// `pool.join()`
    ThreadPoolJoin { pool: Operand },
    /// `pool.shutdown()`
    ThreadPoolShutdown { pool: Operand },
    /// `dest = Scope::new()`
    ScopeNew { dest: Place },
    /// `scope.spawn(task)`
    ScopeSpawn { scope: Operand, task: Operand },
    /// `scope.wait()`
    ScopeWait { scope: Operand },
    /// `dest = if cond_lhs cond_op cond_rhs { true_val } else { false_val }`
    Select {
        dest: Place,
        cond_op: MirBinOp,
        cond_lhs: Operand,
        cond_rhs: Operand,
        true_val: Operand,
        false_val: Operand,
    },
}

/// Block terminators.
#[derive(Debug, Clone)]
pub enum Terminator {
    Return(Option<Operand>),
    Goto(String),
    Branch { cond: Operand, then_label: String, else_label: String },
    Unreachable,
    Switch { discriminant: Operand, cases: Vec<(i64, String)>, default: String },
}

/// A labelled basic block.
#[derive(Debug)]
pub struct BasicBlock {
    pub label: String,
    pub instructions: Vec<MirInst>,
    pub terminator: Terminator,
}

/// A MIR function.
#[derive(Debug)]
pub struct MirFunction {
    pub name: String,
    pub params: Vec<(String, MirType)>,
    pub ret_ty: MirType,
    pub locals: Vec<(String, MirType)>,
    pub blocks: Vec<BasicBlock>,
    pub is_pure: bool,
    pub is_const: bool,
    pub always_inline: bool,
    pub inline_hint: bool,
    pub is_memory_free: bool,
}

/// A function provided by the host environment.
#[derive(Debug)]
pub struct MirExternFn {
    pub module: String,
    pub name: String,
    pub params: Vec<MirType>,
    pub ret_ty: MirType,
}

/// A MIR program. Struct definitions are listed by name, each name once.
#[derive(Debug)]
pub struct MirProgram {
    pub functions: Vec<MirFunction>,
    pub extern_fns: Vec<MirExternFn>,
    pub struct_defs: Vec<(String, Vec<(String, MirType)>)>,
}

} // verus!
