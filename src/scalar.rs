use vstd::prelude::*;
use vstd::layout::size_of;

verus! {

/// Any object the driver manager owns; stands where the API takes a handle of every kind.
///
/// No code outside this module can make a value of a handle kind: the kinds only type the
/// address of state that the driver manager holds.
pub struct Obj {
    unconstructible: (),
}

/// The environment: the global context in which the driver manager is used.
pub struct Env {
    unconstructible: (),
}

/// A connection to a data source.
pub struct Dbc {
    unconstructible: (),
}

/// A statement, with its results and its cursor.
pub struct Stmt {
    unconstructible: (),
}

/// A descriptor of parameters or result columns.
pub struct Desc {
    unconstructible: (),
}

/// The address of an object of kind `K` that the driver manager owns.
///
/// Handles of different kinds are different types, so that one cannot stand where the other
/// is expected, and each is one address wide, as the untyped C handle is. This layer never
/// allocates or frees what a handle refers to; nor may a handle be used from two threads at
/// once unless the driver says so.
pub struct RawHandle<K> {
    pub address: usize,
    pub kind: std::marker::PhantomData<K>,
}

impl<K> RawHandle<K> {
    /// The handle at `address`; address zero is the null handle.
    pub fn from_address(address: usize) -> (r: RawHandle<K>)
        ensures
            r.address == address,
    {
        RawHandle { address, kind: std::marker::PhantomData }
    }

    /// The null handle, which refers to nothing.
    pub fn null() -> (r: RawHandle<K>)
        ensures
            r.address == 0,
    {
        RawHandle { address: 0, kind: std::marker::PhantomData }
    }

    /// Whether this is the null handle.
    pub fn is_null(&self) -> (r: bool)
        ensures
            r == (self.address == 0),
    {
        self.address == 0
    }
}

impl<K> Clone for RawHandle<K> {
    fn clone(&self) -> (r: RawHandle<K>)
        ensures
            r.address == self.address,
    {
        RawHandle { address: self.address, kind: std::marker::PhantomData }
    }
}

impl<K> Copy for RawHandle<K> {

}

impl<K> PartialEq for RawHandle<K> {
    fn eq(&self, o: &RawHandle<K>) -> (r: bool) {
        self.address == o.address
    }
}

impl<K> vstd::std_specs::cmp::PartialEqSpecImpl for RawHandle<K> {
    open spec fn obeys_eq_spec() -> bool {
        true
    }

    open spec fn eq_spec(&self, o: &RawHandle<K>) -> bool {
        self.address == o.address
    }
}

impl<K> Eq for RawHandle<K> {

}

/// SQLHANDLE: a handle of any kind.
pub type Handle = RawHandle<Obj>;

/// SQLHENV
pub type HEnv = RawHandle<Env>;

/// SQLHDESC
pub type HDesc = RawHandle<Desc>;

/// SQLHDBC: the connection handle references storage of all information about the connection
/// to the data source, including status, transaction state, and error information.
pub type HDbc = RawHandle<Dbc>;

/// SQLHSTMT
pub type HStmt = RawHandle<Stmt>;

/// SQLSMALLINT
pub type SmallInt = i16;

/// SQLUSMALLINT
pub type USmallInt = u16;

/// SQLINTEGER
pub type Integer = i32;

/// SQLUINTEGER
pub type UInteger = u32;

/// SQLPOINTER, as an address.
pub type Pointer = usize;

/// SQLCHAR
pub type Char = u8;

/// SQLWCHAR
pub type WChar = u16;

/// SQLLEN: as wide as a pointer, so 64 bits on a 64-bit target and 32 bits on a 32-bit one.
pub type Len = isize;

/// SQLULEN: as wide as a pointer, so 64 bits on a 64-bit target and 32 bits on a 32-bit one.
pub type ULen = usize;

/// SQLHWND: a window handle, as an address.
pub type HWnd = Pointer;

/// SQLRETURN
pub type RetCode = i16;

/// Length of a string that ends with a NUL character (SQL_NTS).
pub const NTS: SmallInt = -3;

/// Length of a string that ends with a NUL character, in a 32-bit field (SQL_NTSL).
pub const NTSL: Integer = -3;

/// Maximum message length
pub const MAX_MESSAGE_LENGTH: SmallInt = 512;

/// Characters in a SQLSTATE.
pub const SQLSTATE_SIZE: usize = 5;

/// Bytes of a SQLSTATE in wide characters.
pub const SQLSTATE_SIZEW: usize = 10;

/// Indicator of a value that is NULL (SQL_NULL_DATA).
pub const NULL_DATA: Len = -1;

/// Indicator of a length that cannot be told (SQL_NO_TOTAL).
pub const NO_TOTAL: Len = -4;

/// Declared length without an upper bound (SQL_SS_LENGTH_UNLIMITED).
pub const SS_LENGTH_UNLIMITED: ULen = 0;

/// Width in bytes of `Len`.
pub fn len_width() -> (r: usize)
    ensures
        r == size_of::<Len>(),
        r == 4 || r == 8,
{
    proof {
        lemma_pointer_width();
    }
    core::mem::size_of::<Len>()
}

/// Width in bytes of `ULen`.
pub fn ulen_width() -> (r: usize)
    ensures
        r == size_of::<ULen>(),
        r == 4 || r == 8,
{
    proof {
        lemma_pointer_width();
    }
    core::mem::size_of::<ULen>()
}

/// `Len` and `ULen` are as wide as a pointer: eight bytes on a 64-bit target, four on a
/// 32-bit one, and there is no third width.
pub proof fn lemma_pointer_width()
    ensures
        size_of::<Len>() == size_of::<ULen>(),
        size_of::<ULen>() == size_of::<usize>(),
        usize::BITS == 64 ==> size_of::<Len>() == 8,
        usize::BITS == 32 ==> size_of::<Len>() == 4,
        usize::BITS == 32 || usize::BITS == 64,
{
    broadcast use vstd::layout::layout_of_primitives;

}

} // verus!
