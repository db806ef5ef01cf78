use vstd::prelude::*;

verus! {

/// SQL Free Statement options
#[derive(Debug, PartialEq, Eq, Clone, Copy, Hash, Structural)]
pub enum FreeStmtOption {
    /// Closes the cursor associated with StatementHandle (if one was defined) and discards all
    /// pending results. The application can reopen this cursor later by executing a SELECT
    /// statement again with the same or different parameter values. If no cursor is open, this
    /// option has no effect for the application. `SQLCloseCursor` can also be called to close a
    /// cursor.
    Close,
    /// Sets the `SQL_DESC_COUNT` field of the ARD to 0, releasing all column buffers bound by
    /// `SQLBindCol` for the given StatementHandle. This does not unbind the bookmark column; to do
    /// that, the `SQL_DESC_DATA_PTR` field of the ARD for the bookmark column is set to NULL.
    /// Notice that if this operation is performed on an explicitly allocated descriptor that is
    /// shared by more than one statement, the operation will affect the bindings of all statements
    /// that share the descriptor.
    Unbind,
    /// Sets the `SQL_DESC_COUNT` field of the APD to 0, releasing all parameter buffers set by
    /// `SQLBindParameter` for the given StatementHandle. If this operation is performed on an
    /// explicitly allocated descriptor that is shared by more than one statement, this operation
    /// will affect the bindings of all the statements that share the descriptor.
    ResetParams,
}

impl FreeStmtOption {
    /// The integer that stands for the variant in the C API.
    pub open spec fn spec_raw(self) -> u16 {
        match self {
            FreeStmtOption::Close => 0,
            FreeStmtOption::Unbind => 2,
            FreeStmtOption::ResetParams => 3,
        }
    }

    /// The integer that stands for the variant in the C API.
    pub fn raw(self) -> (r: u16)
        ensures
            r == self.spec_raw(),
    {
        match self {
            FreeStmtOption::Close => 0,
            FreeStmtOption::Unbind => 2,
            FreeStmtOption::ResetParams => 3,
        }
    }

    /// The variant that `raw` stands for; `None` where no variant of the group has that value.
    pub open spec fn spec_from_raw(raw: u16) -> Option<FreeStmtOption> {
        match raw {
            0 => Some(FreeStmtOption::Close),
            2 => Some(FreeStmtOption::Unbind),
            3 => Some(FreeStmtOption::ResetParams),
            _ => None,
        }
    }

    /// The variant that `raw` stands for; `None` where no variant of the group has that value.
    pub fn from_raw(raw: u16) -> (r: Option<FreeStmtOption>)
        ensures
            r == Self::spec_from_raw(raw),
            forall|e: FreeStmtOption| r == Some(e) <==> #[trigger] e.spec_raw() == raw,
    {
        match raw {
            0 => Some(FreeStmtOption::Close),
            2 => Some(FreeStmtOption::Unbind),
            3 => Some(FreeStmtOption::ResetParams),
            _ => None,
        }
    }

    /// No two variants share an integer.
    pub proof fn lemma_raw_injective(a: FreeStmtOption, b: FreeStmtOption)
        ensures
            a.spec_raw() == b.spec_raw() ==> a == b,
    {
    }
}

/// SQL Data Types
#[derive(Debug, PartialEq, Eq, Clone, Copy, Hash, Structural)]
pub enum SqlDataType {
    UnknownType,
    Char,
    Numeric,
    Decimal,
    Integer,
    Smallint,
    Float,
    Real,
    Double,
    Datetime,
    Varchar,
    Udt,
    Row,
    Array,
    MultiSet,
    Date,
    Time,
    Timestamp,
    TimeWithTimezone,
    TimestampWithTimezone,
    ExtTimeOrInterval,
    ExtTimestamp,
    ExtLongVarchar,
    ExtBinary,
    ExtVarBinary,
    ExtLongVarBinary,
    ExtBigInt,
    ExtTinyInt,
    ExtBit,
    ExtWChar,
    ExtWVarChar,
    ExtWLongVarChar,
    ExtGuid,
    SsVariant,
    SsUdt,
    SsXml,
    SsTable,
    SsTime2,
    SsTimestampOffset,
}

impl SqlDataType {
    /// The integer that stands for the variant in the C API.
    pub open spec fn spec_raw(self) -> i16 {
        match self {
            SqlDataType::UnknownType => 0,
            SqlDataType::Char => 1,
            SqlDataType::Numeric => 2,
            SqlDataType::Decimal => 3,
            SqlDataType::Integer => 4,
            SqlDataType::Smallint => 5,
            SqlDataType::Float => 6,
            SqlDataType::Real => 7,
            SqlDataType::Double => 8,
            SqlDataType::Datetime => 9,
            SqlDataType::Varchar => 12,
            SqlDataType::Udt => 17,
            SqlDataType::Row => 19,
            SqlDataType::Array => 50,
            SqlDataType::MultiSet => 55,
            SqlDataType::Date => 91,
            SqlDataType::Time => 92,
            SqlDataType::Timestamp => 93,
            SqlDataType::TimeWithTimezone => 94,
            SqlDataType::TimestampWithTimezone => 95,
            SqlDataType::ExtTimeOrInterval => 10,
            SqlDataType::ExtTimestamp => 11,
            SqlDataType::ExtLongVarchar => -1i16,
            SqlDataType::ExtBinary => -2i16,
            SqlDataType::ExtVarBinary => -3i16,
            SqlDataType::ExtLongVarBinary => -4i16,
            SqlDataType::ExtBigInt => -5i16,
            SqlDataType::ExtTinyInt => -6i16,
            SqlDataType::ExtBit => -7i16,
            SqlDataType::ExtWChar => -8i16,
            SqlDataType::ExtWVarChar => -9i16,
            SqlDataType::ExtWLongVarChar => -10i16,
            SqlDataType::ExtGuid => -11i16,
            SqlDataType::SsVariant => -150i16,
            SqlDataType::SsUdt => -151i16,
            SqlDataType::SsXml => -152i16,
            SqlDataType::SsTable => -153i16,
            SqlDataType::SsTime2 => -154i16,
            SqlDataType::SsTimestampOffset => -155i16,
        }
    }

    /// The integer that stands for the variant in the C API.
    pub fn raw(self) -> (r: i16)
        ensures
            r == self.spec_raw(),
    {
        match self {
            SqlDataType::UnknownType => 0,
            SqlDataType::Char => 1,
            SqlDataType::Numeric => 2,
            SqlDataType::Decimal => 3,
            SqlDataType::Integer => 4,
            SqlDataType::Smallint => 5,
            SqlDataType::Float => 6,
            SqlDataType::Real => 7,
            SqlDataType::Double => 8,
            SqlDataType::Datetime => 9,
            SqlDataType::Varchar => 12,
            SqlDataType::Udt => 17,
            SqlDataType::Row => 19,
            SqlDataType::Array => 50,
            SqlDataType::MultiSet => 55,
            SqlDataType::Date => 91,
            SqlDataType::Time => 92,
            SqlDataType::Timestamp => 93,
            SqlDataType::TimeWithTimezone => 94,
            SqlDataType::TimestampWithTimezone => 95,
            SqlDataType::ExtTimeOrInterval => 10,
            SqlDataType::ExtTimestamp => 11,
            SqlDataType::ExtLongVarchar => -1,
            SqlDataType::ExtBinary => -2,
            SqlDataType::ExtVarBinary => -3,
            SqlDataType::ExtLongVarBinary => -4,
            SqlDataType::ExtBigInt => -5,
            SqlDataType::ExtTinyInt => -6,
            SqlDataType::ExtBit => -7,
            SqlDataType::ExtWChar => -8,
            SqlDataType::ExtWVarChar => -9,
            SqlDataType::ExtWLongVarChar => -10,
            SqlDataType::ExtGuid => -11,
            SqlDataType::SsVariant => -150,
            SqlDataType::SsUdt => -151,
            SqlDataType::SsXml => -152,
            SqlDataType::SsTable => -153,
            SqlDataType::SsTime2 => -154,
            SqlDataType::SsTimestampOffset => -155,
        }
    }

    /// The variant that `raw` stands for; `None` where no variant of the group has that value.
    pub open spec fn spec_from_raw(raw: i16) -> Option<SqlDataType> {
        match raw {
            0 => Some(SqlDataType::UnknownType),
            1 => Some(SqlDataType::Char),
            2 => Some(SqlDataType::Numeric),
            3 => Some(SqlDataType::Decimal),
            4 => Some(SqlDataType::Integer),
            5 => Some(SqlDataType::Smallint),
            6 => Some(SqlDataType::Float),
            7 => Some(SqlDataType::Real),
            8 => Some(SqlDataType::Double),
            9 => Some(SqlDataType::Datetime),
            12 => Some(SqlDataType::Varchar),
            17 => Some(SqlDataType::Udt),
            19 => Some(SqlDataType::Row),
            50 => Some(SqlDataType::Array),
            55 => Some(SqlDataType::MultiSet),
            91 => Some(SqlDataType::Date),
            92 => Some(SqlDataType::Time),
            93 => Some(SqlDataType::Timestamp),
            94 => Some(SqlDataType::TimeWithTimezone),
            95 => Some(SqlDataType::TimestampWithTimezone),
            10 => Some(SqlDataType::ExtTimeOrInterval),
            11 => Some(SqlDataType::ExtTimestamp),
            -1i16 => Some(SqlDataType::ExtLongVarchar),
            -2i16 => Some(SqlDataType::ExtBinary),
            -3i16 => Some(SqlDataType::ExtVarBinary),
            -4i16 => Some(SqlDataType::ExtLongVarBinary),
            -5i16 => Some(SqlDataType::ExtBigInt),
            -6i16 => Some(SqlDataType::ExtTinyInt),
            -7i16 => Some(SqlDataType::ExtBit),
            -8i16 => Some(SqlDataType::ExtWChar),
            -9i16 => Some(SqlDataType::ExtWVarChar),
            -10i16 => Some(SqlDataType::ExtWLongVarChar),
            -11i16 => Some(SqlDataType::ExtGuid),
            -150i16 => Some(SqlDataType::SsVariant),
            -151i16 => Some(SqlDataType::SsUdt),
            -152i16 => Some(SqlDataType::SsXml),
            -153i16 => Some(SqlDataType::SsTable),
            -154i16 => Some(SqlDataType::SsTime2),
            -155i16 => Some(SqlDataType::SsTimestampOffset),
            _ => None,
        }
    }

    /// The variant that `raw` stands for; `None` where no variant of the group has that value.
    pub fn from_raw(raw: i16) -> (r: Option<SqlDataType>)
        ensures
            r == Self::spec_from_raw(raw),
            forall|e: SqlDataType| r == Some(e) <==> #[trigger] e.spec_raw() == raw,
    {
        match raw {
            0 => Some(SqlDataType::UnknownType),
            1 => Some(SqlDataType::Char),
            2 => Some(SqlDataType::Numeric),
            3 => Some(SqlDataType::Decimal),
            4 => Some(SqlDataType::Integer),
            5 => Some(SqlDataType::Smallint),
            6 => Some(SqlDataType::Float),
            7 => Some(SqlDataType::Real),
            8 => Some(SqlDataType::Double),
            9 => Some(SqlDataType::Datetime),
            12 => Some(SqlDataType::Varchar),
            17 => Some(SqlDataType::Udt),
            19 => Some(SqlDataType::Row),
            50 => Some(SqlDataType::Array),
            55 => Some(SqlDataType::MultiSet),
            91 => Some(SqlDataType::Date),
            92 => Some(SqlDataType::Time),
            93 => Some(SqlDataType::Timestamp),
            94 => Some(SqlDataType::TimeWithTimezone),
            95 => Some(SqlDataType::TimestampWithTimezone),
            10 => Some(SqlDataType::ExtTimeOrInterval),
            11 => Some(SqlDataType::ExtTimestamp),
            -1 => Some(SqlDataType::ExtLongVarchar),
            -2 => Some(SqlDataType::ExtBinary),
            -3 => Some(SqlDataType::ExtVarBinary),
            -4 => Some(SqlDataType::ExtLongVarBinary),
            -5 => Some(SqlDataType::ExtBigInt),
            -6 => Some(SqlDataType::ExtTinyInt),
            -7 => Some(SqlDataType::ExtBit),
            -8 => Some(SqlDataType::ExtWChar),
            -9 => Some(SqlDataType::ExtWVarChar),
            -10 => Some(SqlDataType::ExtWLongVarChar),
            -11 => Some(SqlDataType::ExtGuid),
            -150 => Some(SqlDataType::SsVariant),
            -151 => Some(SqlDataType::SsUdt),
            -152 => Some(SqlDataType::SsXml),
            -153 => Some(SqlDataType::SsTable),
            -154 => Some(SqlDataType::SsTime2),
            -155 => Some(SqlDataType::SsTimestampOffset),
            _ => None,
        }
    }

    /// No two variants share an integer.
    pub proof fn lemma_raw_injective(a: SqlDataType, b: SqlDataType)
        ensures
            a.spec_raw() == b.spec_raw() ==> a == b,
    {
    }

    /// The variant belongs to version 4.0 of the API and is unknown to a 3.x driver manager.
    pub open spec fn spec_is_version_4(self) -> bool {
        self is Udt
            || self is Row
            || self is Array
            || self is MultiSet
            || self is TimeWithTimezone
            || self is TimestampWithTimezone
    }

    /// The variant belongs to version 4.0 of the API and is unknown to a 3.x driver manager.
    pub fn is_version_4(self) -> (r: bool)
        ensures
            r == self.spec_is_version_4(),
    {
        match self {
            SqlDataType::Udt | SqlDataType::Row | SqlDataType::Array | SqlDataType::MultiSet | SqlDataType::TimeWithTimezone | SqlDataType::TimestampWithTimezone => true,
            _ => false,
        }
    }

    /// The variant that `raw` stands for among those of version 3.x; `None` where no such
    /// variant has that value, which is the case for every value of version 4.0.
    pub fn from_raw_version_3(raw: i16) -> (r: Option<SqlDataType>)
        ensures
            r == (match Self::spec_from_raw(raw) {
                Some(e) => if e.spec_is_version_4() {
                    None
                } else {
                    Some(e)
                },
                None => None,
            }),
            forall|e: SqlDataType|
                r == Some(e) <==> #[trigger] e.spec_raw() == raw && !e.spec_is_version_4(),
    {
        match Self::from_raw(raw) {
            Some(e) => if e.is_version_4() {
                None
            } else {
                Some(e)
            },
            None => None,
        }
    }
}

/// Represented in C headers as SQLSMALLINT
#[derive(Debug, PartialEq, Eq, Clone, Copy, Hash, Structural)]
pub enum HandleType {
    Env,
    Dbc,
    Stmt,
    Desc,
}

impl HandleType {
    /// The integer that stands for the variant in the C API.
    pub open spec fn spec_raw(self) -> i16 {
        match self {
            HandleType::Env => 1,
            HandleType::Dbc => 2,
            HandleType::Stmt => 3,
            HandleType::Desc => 4,
        }
    }

    /// The integer that stands for the variant in the C API.
    pub fn raw(self) -> (r: i16)
        ensures
            r == self.spec_raw(),
    {
        match self {
            HandleType::Env => 1,
            HandleType::Dbc => 2,
            HandleType::Stmt => 3,
            HandleType::Desc => 4,
        }
    }

    /// The variant that `raw` stands for; `None` where no variant of the group has that value.
    pub open spec fn spec_from_raw(raw: i16) -> Option<HandleType> {
        match raw {
            1 => Some(HandleType::Env),
            2 => Some(HandleType::Dbc),
            3 => Some(HandleType::Stmt),
            4 => Some(HandleType::Desc),
            _ => None,
        }
    }

    /// The variant that `raw` stands for; `None` where no variant of the group has that value.
    pub fn from_raw(raw: i16) -> (r: Option<HandleType>)
        ensures
            r == Self::spec_from_raw(raw),
            forall|e: HandleType| r == Some(e) <==> #[trigger] e.spec_raw() == raw,
    {
        match raw {
            1 => Some(HandleType::Env),
            2 => Some(HandleType::Dbc),
            3 => Some(HandleType::Stmt),
            4 => Some(HandleType::Desc),
            _ => None,
        }
    }

    /// No two variants share an integer.
    pub proof fn lemma_raw_injective(a: HandleType, b: HandleType)
        ensures
            a.spec_raw() == b.spec_raw() ==> a == b,
    {
    }
}

/// Options for `SQLDriverConnect`
#[derive(Debug, PartialEq, Eq, Clone, Copy, Hash, Structural)]
pub enum DriverConnectOption {
    NoPrompt,
    Complete,
    Prompt,
    CompleteRequired,
}

impl DriverConnectOption {
    /// The integer that stands for the variant in the C API.
    pub open spec fn spec_raw(self) -> u16 {
        match self {
            DriverConnectOption::NoPrompt => 0,
            DriverConnectOption::Complete => 1,
            DriverConnectOption::Prompt => 2,
            DriverConnectOption::CompleteRequired => 3,
        }
    }

    /// The integer that stands for the variant in the C API.
    pub fn raw(self) -> (r: u16)
        ensures
            r == self.spec_raw(),
    {
        match self {
            DriverConnectOption::NoPrompt => 0,
            DriverConnectOption::Complete => 1,
            DriverConnectOption::Prompt => 2,
            DriverConnectOption::CompleteRequired => 3,
        }
    }

    /// The variant that `raw` stands for; `None` where no variant of the group has that value.
    pub open spec fn spec_from_raw(raw: u16) -> Option<DriverConnectOption> {
        match raw {
            0 => Some(DriverConnectOption::NoPrompt),
            1 => Some(DriverConnectOption::Complete),
            2 => Some(DriverConnectOption::Prompt),
            3 => Some(DriverConnectOption::CompleteRequired),
            _ => None,
        }
    }

    /// The variant that `raw` stands for; `None` where no variant of the group has that value.
    pub fn from_raw(raw: u16) -> (r: Option<DriverConnectOption>)
        ensures
            r == Self::spec_from_raw(raw),
            forall|e: DriverConnectOption| r == Some(e) <==> #[trigger] e.spec_raw() == raw,
    {
        match raw {
            0 => Some(DriverConnectOption::NoPrompt),
            1 => Some(DriverConnectOption::Complete),
            2 => Some(DriverConnectOption::Prompt),
            3 => Some(DriverConnectOption::CompleteRequired),
            _ => None,
        }
    }

    /// No two variants share an integer.
    pub proof fn lemma_raw_injective(a: DriverConnectOption, b: DriverConnectOption)
        ensures
            a.spec_raw() == b.spec_raw() ==> a == b,
    {
    }
}

/// Marks the value of an attribute as a fixed-size integer or a pointer rather than a
/// string of some length (SQL_IS_*).
#[derive(Debug, PartialEq, Eq, Clone, Copy, Hash, Structural)]
pub enum SqlAttributeStringLength {
    /// SQL_IS_POINTER
    Pointer,
    /// SQL_IS_UINTEGER
    UInteger,
    /// SQL_IS_INTEGER
    Integer,
    /// SQL_IS_USMALLINT
    USmallInt,
    /// SQL_IS_SMALLINT
    SmallInt,
}

impl SqlAttributeStringLength {
    /// The integer that stands for the variant in the C API.
    pub open spec fn spec_raw(self) -> i32 {
        match self {
            SqlAttributeStringLength::Pointer => -4i32,
            SqlAttributeStringLength::UInteger => -5i32,
            SqlAttributeStringLength::Integer => -6i32,
            SqlAttributeStringLength::USmallInt => -7i32,
            SqlAttributeStringLength::SmallInt => -8i32,
        }
    }

    /// The integer that stands for the variant in the C API.
    pub fn raw(self) -> (r: i32)
        ensures
            r == self.spec_raw(),
    {
        match self {
            SqlAttributeStringLength::Pointer => -4,
            SqlAttributeStringLength::UInteger => -5,
            SqlAttributeStringLength::Integer => -6,
            SqlAttributeStringLength::USmallInt => -7,
            SqlAttributeStringLength::SmallInt => -8,
        }
    }

    /// The variant that `raw` stands for; `None` where no variant of the group has that value.
    pub open spec fn spec_from_raw(raw: i32) -> Option<SqlAttributeStringLength> {
        match raw {
            -4i32 => Some(SqlAttributeStringLength::Pointer),
            -5i32 => Some(SqlAttributeStringLength::UInteger),
            -6i32 => Some(SqlAttributeStringLength::Integer),
            -7i32 => Some(SqlAttributeStringLength::USmallInt),
            -8i32 => Some(SqlAttributeStringLength::SmallInt),
            _ => None,
        }
    }

    /// The variant that `raw` stands for; `None` where no variant of the group has that value.
    pub fn from_raw(raw: i32) -> (r: Option<SqlAttributeStringLength>)
        ensures
            r == Self::spec_from_raw(raw),
            forall|e: SqlAttributeStringLength| r == Some(e) <==> #[trigger] e.spec_raw() == raw,
    {
        match raw {
            -4 => Some(SqlAttributeStringLength::Pointer),
            -5 => Some(SqlAttributeStringLength::UInteger),
            -6 => Some(SqlAttributeStringLength::Integer),
            -7 => Some(SqlAttributeStringLength::USmallInt),
            -8 => Some(SqlAttributeStringLength::SmallInt),
            _ => None,
        }
    }

    /// No two variants share an integer.
    pub proof fn lemma_raw_injective(a: SqlAttributeStringLength, b: SqlAttributeStringLength)
        ensures
            a.spec_raw() == b.spec_raw() ==> a == b,
    {
    }
}

/// Completion types for `SQLEndTrans`
#[derive(Debug, PartialEq, Eq, Clone, Copy, Hash, Structural)]
pub enum CompletionType {
    Commit,
    Rollback,
}

impl CompletionType {
    /// The integer that stands for the variant in the C API.
    pub open spec fn spec_raw(self) -> i16 {
        match self {
            CompletionType::Commit => 0,
            CompletionType::Rollback => 1,
        }
    }

    /// The integer that stands for the variant in the C API.
    pub fn raw(self) -> (r: i16)
        ensures
            r == self.spec_raw(),
    {
        match self {
            CompletionType::Commit => 0,
            CompletionType::Rollback => 1,
        }
    }

    /// The variant that `raw` stands for; `None` where no variant of the group has that value.
    pub open spec fn spec_from_raw(raw: i16) -> Option<CompletionType> {
        match raw {
            0 => Some(CompletionType::Commit),
            1 => Some(CompletionType::Rollback),
            _ => None,
        }
    }

    /// The variant that `raw` stands for; `None` where no variant of the group has that value.
    pub fn from_raw(raw: i16) -> (r: Option<CompletionType>)
        ensures
            r == Self::spec_from_raw(raw),
            forall|e: CompletionType| r == Some(e) <==> #[trigger] e.spec_raw() == raw,
    {
        match raw {
            0 => Some(CompletionType::Commit),
            1 => Some(CompletionType::Rollback),
            _ => None,
        }
    }

    /// No two variants share an integer.
    pub proof fn lemma_raw_injective(a: CompletionType, b: CompletionType)
        ensures
            a.spec_raw() == b.spec_raw() ==> a == b,
    {
    }
}

} // verus!
