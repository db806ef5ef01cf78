use vstd::prelude::*;

verus! {

/// `DiagIdentifier` for `SQLGetDiagField`
#[derive(Debug, PartialEq, Eq, Clone, Copy, Hash, Structural)]
pub enum HeaderDiagnosticIdentifier {
    /// SQL_DIAG_RETURNCODE
    ReturnCode,
    /// SQL_DIAG_NUMBER
    Number,
    /// SQL_DIAG_ROW_COUNT
    RowCount,
    /// SQL_DIAG_SQLSTATE
    SqlState,
    /// SQL_DIAG_NATIVE
    Native,
    /// SQL_DIAG_MESSAGE_TEXT
    MessageText,
    /// SQL_DIAG_DYNAMIC_FUNCTION
    DynamicFunction,
    /// SQL_DIAG_CLASS_ORIGIN
    ClassOrigin,
    /// SQL_DIAG_SUBCLASS_ORIGIN
    SubclassOrigin,
    /// SQL_DIAG_CONNECTION_NAME
    ConnectionName,
    /// SQL_DIAG_SERVER_NAME
    ServerName,
    /// SQL_DIAG_DYNAMIC_FUNCTION_CODE
    DynamicFunctionCode,
    /// SQL_DIAG_CURSOR_ROW_COUNT
    CursorRowCount,
    /// SQL_DIAG_ROW_NUMBER
    RowNumber,
    /// SQL_DIAG_COLUMN_NUMBER
    ColumnNumber,
}

impl HeaderDiagnosticIdentifier {
    /// The integer that stands for the variant in the C API.
    pub open spec fn spec_raw(self) -> i32 {
        match self {
            HeaderDiagnosticIdentifier::ReturnCode => 1,
            HeaderDiagnosticIdentifier::Number => 2,
            HeaderDiagnosticIdentifier::RowCount => 3,
            HeaderDiagnosticIdentifier::SqlState => 4,
            HeaderDiagnosticIdentifier::Native => 5,
            HeaderDiagnosticIdentifier::MessageText => 6,
            HeaderDiagnosticIdentifier::DynamicFunction => 7,
            HeaderDiagnosticIdentifier::ClassOrigin => 8,
            HeaderDiagnosticIdentifier::SubclassOrigin => 9,
            HeaderDiagnosticIdentifier::ConnectionName => 10,
            HeaderDiagnosticIdentifier::ServerName => 11,
            HeaderDiagnosticIdentifier::DynamicFunctionCode => 12,
            HeaderDiagnosticIdentifier::CursorRowCount => -1249i32,
            HeaderDiagnosticIdentifier::RowNumber => -1248i32,
            HeaderDiagnosticIdentifier::ColumnNumber => -1247i32,
        }
    }

    /// The integer that stands for the variant in the C API.
    pub fn raw(self) -> (r: i32)
        ensures
            r == self.spec_raw(),
    {
        match self {
            HeaderDiagnosticIdentifier::ReturnCode => 1,
            HeaderDiagnosticIdentifier::Number => 2,
            HeaderDiagnosticIdentifier::RowCount => 3,
            HeaderDiagnosticIdentifier::SqlState => 4,
            HeaderDiagnosticIdentifier::Native => 5,
            HeaderDiagnosticIdentifier::MessageText => 6,
            HeaderDiagnosticIdentifier::DynamicFunction => 7,
            HeaderDiagnosticIdentifier::ClassOrigin => 8,
            HeaderDiagnosticIdentifier::SubclassOrigin => 9,
            HeaderDiagnosticIdentifier::ConnectionName => 10,
            HeaderDiagnosticIdentifier::ServerName => 11,
            HeaderDiagnosticIdentifier::DynamicFunctionCode => 12,
            HeaderDiagnosticIdentifier::CursorRowCount => -1249,
            HeaderDiagnosticIdentifier::RowNumber => -1248,
            HeaderDiagnosticIdentifier::ColumnNumber => -1247,
        }
    }

    /// The variant that `raw` stands for; `None` where no variant of the group has that value.
    pub open spec fn spec_from_raw(raw: i32) -> Option<HeaderDiagnosticIdentifier> {
        match raw {
            1 => Some(HeaderDiagnosticIdentifier::ReturnCode),
            2 => Some(HeaderDiagnosticIdentifier::Number),
            3 => Some(HeaderDiagnosticIdentifier::RowCount),
            4 => Some(HeaderDiagnosticIdentifier::SqlState),
            5 => Some(HeaderDiagnosticIdentifier::Native),
            6 => Some(HeaderDiagnosticIdentifier::MessageText),
            7 => Some(HeaderDiagnosticIdentifier::DynamicFunction),
            8 => Some(HeaderDiagnosticIdentifier::ClassOrigin),
            9 => Some(HeaderDiagnosticIdentifier::SubclassOrigin),
            10 => Some(HeaderDiagnosticIdentifier::ConnectionName),
            11 => Some(HeaderDiagnosticIdentifier::ServerName),
            12 => Some(HeaderDiagnosticIdentifier::DynamicFunctionCode),
            -1249i32 => Some(HeaderDiagnosticIdentifier::CursorRowCount),
            -1248i32 => Some(HeaderDiagnosticIdentifier::RowNumber),
            -1247i32 => Some(HeaderDiagnosticIdentifier::ColumnNumber),
            _ => None,
        }
    }

    /// The variant that `raw` stands for; `None` where no variant of the group has that value.
    pub fn from_raw(raw: i32) -> (r: Option<HeaderDiagnosticIdentifier>)
        ensures
            r == Self::spec_from_raw(raw),
            forall|e: HeaderDiagnosticIdentifier| r == Some(e) <==> #[trigger] e.spec_raw() == raw,
    {
        match raw {
            1 => Some(HeaderDiagnosticIdentifier::ReturnCode),
            2 => Some(HeaderDiagnosticIdentifier::Number),
            3 => Some(HeaderDiagnosticIdentifier::RowCount),
            4 => Some(HeaderDiagnosticIdentifier::SqlState),
            5 => Some(HeaderDiagnosticIdentifier::Native),
            6 => Some(HeaderDiagnosticIdentifier::MessageText),
            7 => Some(HeaderDiagnosticIdentifier::DynamicFunction),
            8 => Some(HeaderDiagnosticIdentifier::ClassOrigin),
            9 => Some(HeaderDiagnosticIdentifier::SubclassOrigin),
            10 => Some(HeaderDiagnosticIdentifier::ConnectionName),
            11 => Some(HeaderDiagnosticIdentifier::ServerName),
            12 => Some(HeaderDiagnosticIdentifier::DynamicFunctionCode),
            -1249 => Some(HeaderDiagnosticIdentifier::CursorRowCount),
            -1248 => Some(HeaderDiagnosticIdentifier::RowNumber),
            -1247 => Some(HeaderDiagnosticIdentifier::ColumnNumber),
            _ => None,
        }
    }

    /// No two variants share an integer.
    pub proof fn lemma_raw_injective(a: HeaderDiagnosticIdentifier, b: HeaderDiagnosticIdentifier)
        ensures
            a.spec_raw() == b.spec_raw() ==> a == b,
    {
    }
}

/// The kind of statement that a diagnostic reports on (SQL_DIAG_DYNAMIC_FUNCTION_CODE).
#[derive(Debug, PartialEq, Eq, Clone, Copy, Hash, Structural)]
pub enum DynamicDiagnosticIdentifier {
    /// SQL_DIAG_ALTER_DOMAIN
    AlterDomain,
    /// SQL_DIAG_ALTER_TABLE,
    AlterTable,
    /// SQL_DIAG_CALL
    Call,
    /// SQL_DIAG_CREATE_ASSERTION
    CreateAssertion,
    /// SQL_DIAG_CREATE_CHARACTER_SET
    CreateCharacterSet,
    /// SQL_DIAG_CREATE_COLLATION,
    CreateCollation,
    /// SQL_DIAG_CREATE_DOMAIN
    CreateDomain,
    /// SQL_DIAG_CREATE_INDEX
    CreateIndex,
    /// SQL_DIAG_CREATE_SCHEMA
    CreateSchema,
    /// SQL_DIAG_CREATE_TABLE
    CreateTable,
    /// SQL_DIAG_CREATE_TRANSLATION
    CreateTranslation,
    /// SQL_DIAG_CREATE_VIEW
    CreateView,
    /// SQL_DIAG_DELETE_WHERE
    DeleteWhere,
    /// SQL_DIAG_DROP_ASSERTION
    DropAssertion,
    /// SQL_DIAG_DROP_CHARACTER_SET
    DropCharacterSet,
    /// SQL_DIAG_DROP_COLLATION
    DropCollation,
    /// SQL_DIAG_DROP_DOMAIN
    DropDomain,
    /// SQL_DIAG_DROP_INDEX
    DropIndex,
    /// SQL_DIAG_DROP_SCHEMA
    DropSchema,
    /// SQL_DIAG_DROP_TABLE
    DropTable,
    /// SQL_DIAG_DROP_TRANSLATION
    DropTranslation,
    /// SQL_DIAG_DROP_VIEW
    DropView,
    /// SQL_DIAG_DYNAMIC_DELETE_CURSOR
    DynamicDeleteCursor,
    /// SQL_DIAG_DYNAMIC_UPDATE_CURSOR
    DynamicUpdateCursor,
    /// SQL_DIAG_GRANT
    Grant,
    /// SQL_DIAG_INSERT
    Insert,
    /// SQL_DIAG_REVOKE
    Revoke,
    SelectCursor,
    /// SQL_DIAG_UNKNOWN_STATEMENT = 0,
    UnknownStatement,
    /// SQL_DIAG_UPDATE_WHERE = 82,
    UpdateWhere,
}

impl DynamicDiagnosticIdentifier {
    /// The integer that stands for the variant in the C API.
    pub open spec fn spec_raw(self) -> i32 {
        match self {
            DynamicDiagnosticIdentifier::AlterDomain => 3,
            DynamicDiagnosticIdentifier::AlterTable => 4,
            DynamicDiagnosticIdentifier::Call => 7,
            DynamicDiagnosticIdentifier::CreateAssertion => 6,
            DynamicDiagnosticIdentifier::CreateCharacterSet => 8,
            DynamicDiagnosticIdentifier::CreateCollation => 10,
            DynamicDiagnosticIdentifier::CreateDomain => 23,
            DynamicDiagnosticIdentifier::CreateIndex => -1i32,
            DynamicDiagnosticIdentifier::CreateSchema => 64,
            DynamicDiagnosticIdentifier::CreateTable => 77,
            DynamicDiagnosticIdentifier::CreateTranslation => 79,
            DynamicDiagnosticIdentifier::CreateView => 84,
            DynamicDiagnosticIdentifier::DeleteWhere => 19,
            DynamicDiagnosticIdentifier::DropAssertion => 24,
            DynamicDiagnosticIdentifier::DropCharacterSet => 25,
            DynamicDiagnosticIdentifier::DropCollation => 26,
            DynamicDiagnosticIdentifier::DropDomain => 27,
            DynamicDiagnosticIdentifier::DropIndex => -2i32,
            DynamicDiagnosticIdentifier::DropSchema => 31,
            DynamicDiagnosticIdentifier::DropTable => 32,
            DynamicDiagnosticIdentifier::DropTranslation => 33,
            DynamicDiagnosticIdentifier::DropView => 36,
            DynamicDiagnosticIdentifier::DynamicDeleteCursor => 38,
            DynamicDiagnosticIdentifier::DynamicUpdateCursor => 81,
            DynamicDiagnosticIdentifier::Grant => 48,
            DynamicDiagnosticIdentifier::Insert => 50,
            DynamicDiagnosticIdentifier::Revoke => 59,
            DynamicDiagnosticIdentifier::SelectCursor => 85,
            DynamicDiagnosticIdentifier::UnknownStatement => 0,
            DynamicDiagnosticIdentifier::UpdateWhere => 82,
        }
    }

    /// The integer that stands for the variant in the C API.
    pub fn raw(self) -> (r: i32)
        ensures
            r == self.spec_raw(),
    {
        match self {
            DynamicDiagnosticIdentifier::AlterDomain => 3,
            DynamicDiagnosticIdentifier::AlterTable => 4,
            DynamicDiagnosticIdentifier::Call => 7,
            DynamicDiagnosticIdentifier::CreateAssertion => 6,
            DynamicDiagnosticIdentifier::CreateCharacterSet => 8,
            DynamicDiagnosticIdentifier::CreateCollation => 10,
            DynamicDiagnosticIdentifier::CreateDomain => 23,
            DynamicDiagnosticIdentifier::CreateIndex => -1,
            DynamicDiagnosticIdentifier::CreateSchema => 64,
            DynamicDiagnosticIdentifier::CreateTable => 77,
            DynamicDiagnosticIdentifier::CreateTranslation => 79,
            DynamicDiagnosticIdentifier::CreateView => 84,
            DynamicDiagnosticIdentifier::DeleteWhere => 19,
            DynamicDiagnosticIdentifier::DropAssertion => 24,
            DynamicDiagnosticIdentifier::DropCharacterSet => 25,
            DynamicDiagnosticIdentifier::DropCollation => 26,
            DynamicDiagnosticIdentifier::DropDomain => 27,
            DynamicDiagnosticIdentifier::DropIndex => -2,
            DynamicDiagnosticIdentifier::DropSchema => 31,
            DynamicDiagnosticIdentifier::DropTable => 32,
            DynamicDiagnosticIdentifier::DropTranslation => 33,
            DynamicDiagnosticIdentifier::DropView => 36,
            DynamicDiagnosticIdentifier::DynamicDeleteCursor => 38,
            DynamicDiagnosticIdentifier::DynamicUpdateCursor => 81,
            DynamicDiagnosticIdentifier::Grant => 48,
            DynamicDiagnosticIdentifier::Insert => 50,
            DynamicDiagnosticIdentifier::Revoke => 59,
            DynamicDiagnosticIdentifier::SelectCursor => 85,
            DynamicDiagnosticIdentifier::UnknownStatement => 0,
            DynamicDiagnosticIdentifier::UpdateWhere => 82,
        }
    }

    /// The variant that `raw` stands for; `None` where no variant of the group has that value.
    pub open spec fn spec_from_raw(raw: i32) -> Option<DynamicDiagnosticIdentifier> {
        match raw {
            3 => Some(DynamicDiagnosticIdentifier::AlterDomain),
            4 => Some(DynamicDiagnosticIdentifier::AlterTable),
            7 => Some(DynamicDiagnosticIdentifier::Call),
            6 => Some(DynamicDiagnosticIdentifier::CreateAssertion),
            8 => Some(DynamicDiagnosticIdentifier::CreateCharacterSet),
            10 => Some(DynamicDiagnosticIdentifier::CreateCollation),
            23 => Some(DynamicDiagnosticIdentifier::CreateDomain),
            -1i32 => Some(DynamicDiagnosticIdentifier::CreateIndex),
            64 => Some(DynamicDiagnosticIdentifier::CreateSchema),
            77 => Some(DynamicDiagnosticIdentifier::CreateTable),
            79 => Some(DynamicDiagnosticIdentifier::CreateTranslation),
            84 => Some(DynamicDiagnosticIdentifier::CreateView),
            19 => Some(DynamicDiagnosticIdentifier::DeleteWhere),
            24 => Some(DynamicDiagnosticIdentifier::DropAssertion),
            25 => Some(DynamicDiagnosticIdentifier::DropCharacterSet),
            26 => Some(DynamicDiagnosticIdentifier::DropCollation),
            27 => Some(DynamicDiagnosticIdentifier::DropDomain),
            -2i32 => Some(DynamicDiagnosticIdentifier::DropIndex),
            31 => Some(DynamicDiagnosticIdentifier::DropSchema),
            32 => Some(DynamicDiagnosticIdentifier::DropTable),
            33 => Some(DynamicDiagnosticIdentifier::DropTranslation),
            36 => Some(DynamicDiagnosticIdentifier::DropView),
            38 => Some(DynamicDiagnosticIdentifier::DynamicDeleteCursor),
            81 => Some(DynamicDiagnosticIdentifier::DynamicUpdateCursor),
            48 => Some(DynamicDiagnosticIdentifier::Grant),
            50 => Some(DynamicDiagnosticIdentifier::Insert),
            59 => Some(DynamicDiagnosticIdentifier::Revoke),
            85 => Some(DynamicDiagnosticIdentifier::SelectCursor),
            0 => Some(DynamicDiagnosticIdentifier::UnknownStatement),
            82 => Some(DynamicDiagnosticIdentifier::UpdateWhere),
            _ => None,
        }
    }

    /// The variant that `raw` stands for; `None` where no variant of the group has that value.
    pub fn from_raw(raw: i32) -> (r: Option<DynamicDiagnosticIdentifier>)
        ensures
            r == Self::spec_from_raw(raw),
            forall|e: DynamicDiagnosticIdentifier| r == Some(e) <==> #[trigger] e.spec_raw() == raw,
    {
        match raw {
            3 => Some(DynamicDiagnosticIdentifier::AlterDomain),
            4 => Some(DynamicDiagnosticIdentifier::AlterTable),
            7 => Some(DynamicDiagnosticIdentifier::Call),
            6 => Some(DynamicDiagnosticIdentifier::CreateAssertion),
            8 => Some(DynamicDiagnosticIdentifier::CreateCharacterSet),
            10 => Some(DynamicDiagnosticIdentifier::CreateCollation),
            23 => Some(DynamicDiagnosticIdentifier::CreateDomain),
            -1 => Some(DynamicDiagnosticIdentifier::CreateIndex),
            64 => Some(DynamicDiagnosticIdentifier::CreateSchema),
            77 => Some(DynamicDiagnosticIdentifier::CreateTable),
            79 => Some(DynamicDiagnosticIdentifier::CreateTranslation),
            84 => Some(DynamicDiagnosticIdentifier::CreateView),
            19 => Some(DynamicDiagnosticIdentifier::DeleteWhere),
            24 => Some(DynamicDiagnosticIdentifier::DropAssertion),
            25 => Some(DynamicDiagnosticIdentifier::DropCharacterSet),
            26 => Some(DynamicDiagnosticIdentifier::DropCollation),
            27 => Some(DynamicDiagnosticIdentifier::DropDomain),
            -2 => Some(DynamicDiagnosticIdentifier::DropIndex),
            31 => Some(DynamicDiagnosticIdentifier::DropSchema),
            32 => Some(DynamicDiagnosticIdentifier::DropTable),
            33 => Some(DynamicDiagnosticIdentifier::DropTranslation),
            36 => Some(DynamicDiagnosticIdentifier::DropView),
            38 => Some(DynamicDiagnosticIdentifier::DynamicDeleteCursor),
            81 => Some(DynamicDiagnosticIdentifier::DynamicUpdateCursor),
            48 => Some(DynamicDiagnosticIdentifier::Grant),
            50 => Some(DynamicDiagnosticIdentifier::Insert),
            59 => Some(DynamicDiagnosticIdentifier::Revoke),
            85 => Some(DynamicDiagnosticIdentifier::SelectCursor),
            0 => Some(DynamicDiagnosticIdentifier::UnknownStatement),
            82 => Some(DynamicDiagnosticIdentifier::UpdateWhere),
            _ => None,
        }
    }

    /// No two variants share an integer.
    pub proof fn lemma_raw_injective(a: DynamicDiagnosticIdentifier, b: DynamicDiagnosticIdentifier)
        ensures
            a.spec_raw() == b.spec_raw() ==> a == b,
    {
    }
}

} // verus!
