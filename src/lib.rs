//! Types whose values and byte images match the ODBC C API.
//!
//! Handle kinds, scalar width aliases, closed groups of enumerated constants and the
//! fixed-layout structures that cross the boundary to a driver manager. Every closed
//! group maps each variant to its fixed integer and converts back from a raw integer
//! only where the value belongs to the group. Every structure has a byte image laid
//! out as the C definition is, in either byte order, and reads back from it.

mod attributes;
pub mod bytes;
mod codes;
mod diagnostics;
mod interval;
pub mod layout;
mod scalar;
mod structs;

pub use attributes::{AsyncConnectionBehavior, ConnectionAttribute, StatementAttribute};
pub use bytes::{native_order, ByteOrder};
pub use codes::{
    CompletionType, DriverConnectOption, FreeStmtOption, HandleType, SqlAttributeStringLength,
    SqlDataType,
};
pub use diagnostics::{DynamicDiagnosticIdentifier, HeaderDiagnosticIdentifier};
pub use interval::{IntervalStruct, IntervalUnion};
pub use layout::{c_layout, CLayout, FieldShape};
pub use scalar::{
    len_width, ulen_width, Char, Dbc, Desc, Env, HDbc, HDesc, HEnv, HStmt, HWnd, Handle, Integer,
    Len, Obj, Pointer, RawHandle, RetCode, SmallInt, Stmt, UInteger, ULen, USmallInt, WChar,
    MAX_MESSAGE_LENGTH, NO_TOTAL, NTS, NTSL, NULL_DATA, SQLSTATE_SIZE, SQLSTATE_SIZEW,
    SS_LENGTH_UNLIMITED,
};
pub use structs::{Date, DaySecond, Guid, SsTime2, SsTimestampOffset, Time, Timestamp, YearMonth};
