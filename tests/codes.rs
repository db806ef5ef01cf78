use odbc_sys::{
    AsyncConnectionBehavior, CompletionType, ConnectionAttribute, DriverConnectOption,
    DynamicDiagnosticIdentifier, FreeStmtOption, HandleType, HeaderDiagnosticIdentifier,
    SqlAttributeStringLength, SqlDataType, StatementAttribute,
};

#[test]
fn free_stmt_option_values() {
    let table: [(FreeStmtOption, u16); 3] = [
        (FreeStmtOption::Close, 0),
        (FreeStmtOption::Unbind, 2),
        (FreeStmtOption::ResetParams, 3),
    ];
    for (variant, value) in table {
        assert_eq!(variant.raw(), value);
        assert_eq!(FreeStmtOption::from_raw(value), Some(variant));
    }
}

#[test]
fn free_stmt_option_rejects_unknown() {
    assert_eq!(FreeStmtOption::from_raw(9999), None);
    assert_eq!(FreeStmtOption::from_raw(4), None);
}

#[test]
fn sql_data_type_values() {
    let table: [(SqlDataType, i16); 39] = [
        (SqlDataType::UnknownType, 0),
        (SqlDataType::Char, 1),
        (SqlDataType::Numeric, 2),
        (SqlDataType::Decimal, 3),
        (SqlDataType::Integer, 4),
        (SqlDataType::Smallint, 5),
        (SqlDataType::Float, 6),
        (SqlDataType::Real, 7),
        (SqlDataType::Double, 8),
        (SqlDataType::Datetime, 9),
        (SqlDataType::Varchar, 12),
        (SqlDataType::Udt, 17),
        (SqlDataType::Row, 19),
        (SqlDataType::Array, 50),
        (SqlDataType::MultiSet, 55),
        (SqlDataType::Date, 91),
        (SqlDataType::Time, 92),
        (SqlDataType::Timestamp, 93),
        (SqlDataType::TimeWithTimezone, 94),
        (SqlDataType::TimestampWithTimezone, 95),
        (SqlDataType::ExtTimeOrInterval, 10),
        (SqlDataType::ExtTimestamp, 11),
        (SqlDataType::ExtLongVarchar, -1),
        (SqlDataType::ExtBinary, -2),
        (SqlDataType::ExtVarBinary, -3),
        (SqlDataType::ExtLongVarBinary, -4),
        (SqlDataType::ExtBigInt, -5),
        (SqlDataType::ExtTinyInt, -6),
        (SqlDataType::ExtBit, -7),
        (SqlDataType::ExtWChar, -8),
        (SqlDataType::ExtWVarChar, -9),
        (SqlDataType::ExtWLongVarChar, -10),
        (SqlDataType::ExtGuid, -11),
        (SqlDataType::SsVariant, -150),
        (SqlDataType::SsUdt, -151),
        (SqlDataType::SsXml, -152),
        (SqlDataType::SsTable, -153),
        (SqlDataType::SsTime2, -154),
        (SqlDataType::SsTimestampOffset, -155),
    ];
    for (variant, value) in table {
        assert_eq!(variant.raw(), value);
        assert_eq!(SqlDataType::from_raw(value), Some(variant));
    }
}

#[test]
fn sql_data_type_rejects_unknown() {
    assert_eq!(SqlDataType::from_raw(9999), None);
    assert_eq!(SqlDataType::from_raw(96), None);
}

#[test]
fn handle_type_values() {
    let table: [(HandleType, i16); 4] = [
        (HandleType::Env, 1),
        (HandleType::Dbc, 2),
        (HandleType::Stmt, 3),
        (HandleType::Desc, 4),
    ];
    for (variant, value) in table {
        assert_eq!(variant.raw(), value);
        assert_eq!(HandleType::from_raw(value), Some(variant));
    }
}

#[test]
fn handle_type_rejects_unknown() {
    assert_eq!(HandleType::from_raw(9999), None);
    assert_eq!(HandleType::from_raw(5), None);
}

#[test]
fn driver_connect_option_values() {
    let table: [(DriverConnectOption, u16); 4] = [
        (DriverConnectOption::NoPrompt, 0),
        (DriverConnectOption::Complete, 1),
        (DriverConnectOption::Prompt, 2),
        (DriverConnectOption::CompleteRequired, 3),
    ];
    for (variant, value) in table {
        assert_eq!(variant.raw(), value);
        assert_eq!(DriverConnectOption::from_raw(value), Some(variant));
    }
}

#[test]
fn driver_connect_option_rejects_unknown() {
    assert_eq!(DriverConnectOption::from_raw(9999), None);
    assert_eq!(DriverConnectOption::from_raw(4), None);
}

#[test]
fn sql_attribute_string_length_values() {
    let table: [(SqlAttributeStringLength, i32); 5] = [
        (SqlAttributeStringLength::Pointer, -4),
        (SqlAttributeStringLength::UInteger, -5),
        (SqlAttributeStringLength::Integer, -6),
        (SqlAttributeStringLength::USmallInt, -7),
        (SqlAttributeStringLength::SmallInt, -8),
    ];
    for (variant, value) in table {
        assert_eq!(variant.raw(), value);
        assert_eq!(SqlAttributeStringLength::from_raw(value), Some(variant));
    }
}

#[test]
fn sql_attribute_string_length_rejects_unknown() {
    assert_eq!(SqlAttributeStringLength::from_raw(9999), None);
    assert_eq!(SqlAttributeStringLength::from_raw(-3), None);
}

#[test]
fn completion_type_values() {
    let table: [(CompletionType, i16); 2] = [
        (CompletionType::Commit, 0),
        (CompletionType::Rollback, 1),
    ];
    for (variant, value) in table {
        assert_eq!(variant.raw(), value);
        assert_eq!(CompletionType::from_raw(value), Some(variant));
    }
}

#[test]
fn completion_type_rejects_unknown() {
    assert_eq!(CompletionType::from_raw(9999), None);
    assert_eq!(CompletionType::from_raw(2), None);
}

#[test]
fn statement_attribute_values() {
    let table: [(StatementAttribute, i32); 7] = [
        (StatementAttribute::AsyncEnable, 4),
        (StatementAttribute::ParamBindType, 18),
        (StatementAttribute::ParamsetSize, 22),
        (StatementAttribute::RowBindType, 5),
        (StatementAttribute::RowArraySize, 27),
        (StatementAttribute::RowsFetchedPtr, 26),
        (StatementAttribute::AsyncStmtEvent, 29),
    ];
    for (variant, value) in table {
        assert_eq!(variant.raw(), value);
        assert_eq!(StatementAttribute::from_raw(value), Some(variant));
    }
}

#[test]
fn statement_attribute_rejects_unknown() {
    assert_eq!(StatementAttribute::from_raw(9999), None);
    assert_eq!(StatementAttribute::from_raw(30), None);
}

#[test]
fn connection_attribute_values() {
    let table: [(ConnectionAttribute, i32); 22] = [
        (ConnectionAttribute::AsyncEnable, 4),
        (ConnectionAttribute::AccessMode, 101),
        (ConnectionAttribute::AutoCommit, 102),
        (ConnectionAttribute::LoginTimeout, 103),
        (ConnectionAttribute::Trace, 104),
        (ConnectionAttribute::TraceFile, 105),
        (ConnectionAttribute::TranslateLib, 106),
        (ConnectionAttribute::TranslateOption, 107),
        (ConnectionAttribute::TxnIsolation, 108),
        (ConnectionAttribute::CurrentCatalog, 109),
        (ConnectionAttribute::OdbcCursors, 110),
        (ConnectionAttribute::QuietMode, 111),
        (ConnectionAttribute::PacketSize, 112),
        (ConnectionAttribute::ConnectionTimeout, 113),
        (ConnectionAttribute::DisconnectBehaviour, 114),
        (ConnectionAttribute::AsyncDbcFunctionsEnable, 117),
        (ConnectionAttribute::AsyncDbcEvent, 119),
        (ConnectionAttribute::EnlistInDtc, 1207),
        (ConnectionAttribute::EnlistInXa, 1208),
        (ConnectionAttribute::ConnectionDead, 1209),
        (ConnectionAttribute::AutoIpd, 10001),
        (ConnectionAttribute::MetadataId, 10014),
    ];
    for (variant, value) in table {
        assert_eq!(variant.raw(), value);
        assert_eq!(ConnectionAttribute::from_raw(value), Some(variant));
    }
}

#[test]
fn connection_attribute_rejects_unknown() {
    assert_eq!(ConnectionAttribute::from_raw(9999), None);
    assert_eq!(ConnectionAttribute::from_raw(10015), None);
}

#[test]
fn async_connection_behavior_values() {
    let table: [(AsyncConnectionBehavior, i32); 2] = [
        (AsyncConnectionBehavior::On, 1),
        (AsyncConnectionBehavior::Off, 0),
    ];
    for (variant, value) in table {
        assert_eq!(variant.raw(), value);
        assert_eq!(AsyncConnectionBehavior::from_raw(value), Some(variant));
    }
}

#[test]
fn async_connection_behavior_rejects_unknown() {
    assert_eq!(AsyncConnectionBehavior::from_raw(9999), None);
    assert_eq!(AsyncConnectionBehavior::from_raw(2), None);
}

#[test]
fn header_diagnostic_identifier_values() {
    let table: [(HeaderDiagnosticIdentifier, i32); 15] = [
        (HeaderDiagnosticIdentifier::ReturnCode, 1),
        (HeaderDiagnosticIdentifier::Number, 2),
        (HeaderDiagnosticIdentifier::RowCount, 3),
        (HeaderDiagnosticIdentifier::SqlState, 4),
        (HeaderDiagnosticIdentifier::Native, 5),
        (HeaderDiagnosticIdentifier::MessageText, 6),
        (HeaderDiagnosticIdentifier::DynamicFunction, 7),
        (HeaderDiagnosticIdentifier::ClassOrigin, 8),
        (HeaderDiagnosticIdentifier::SubclassOrigin, 9),
        (HeaderDiagnosticIdentifier::ConnectionName, 10),
        (HeaderDiagnosticIdentifier::ServerName, 11),
        (HeaderDiagnosticIdentifier::DynamicFunctionCode, 12),
        (HeaderDiagnosticIdentifier::CursorRowCount, -1249),
        (HeaderDiagnosticIdentifier::RowNumber, -1248),
        (HeaderDiagnosticIdentifier::ColumnNumber, -1247),
    ];
    for (variant, value) in table {
        assert_eq!(variant.raw(), value);
        assert_eq!(HeaderDiagnosticIdentifier::from_raw(value), Some(variant));
    }
}

#[test]
fn header_diagnostic_identifier_rejects_unknown() {
    assert_eq!(HeaderDiagnosticIdentifier::from_raw(9999), None);
    assert_eq!(HeaderDiagnosticIdentifier::from_raw(13), None);
}

#[test]
fn dynamic_diagnostic_identifier_values() {
    let table: [(DynamicDiagnosticIdentifier, i32); 30] = [
        (DynamicDiagnosticIdentifier::AlterDomain, 3),
        (DynamicDiagnosticIdentifier::AlterTable, 4),
        (DynamicDiagnosticIdentifier::Call, 7),
        (DynamicDiagnosticIdentifier::CreateAssertion, 6),
        (DynamicDiagnosticIdentifier::CreateCharacterSet, 8),
        (DynamicDiagnosticIdentifier::CreateCollation, 10),
        (DynamicDiagnosticIdentifier::CreateDomain, 23),
        (DynamicDiagnosticIdentifier::CreateIndex, -1),
        (DynamicDiagnosticIdentifier::CreateSchema, 64),
        (DynamicDiagnosticIdentifier::CreateTable, 77),
        (DynamicDiagnosticIdentifier::CreateTranslation, 79),
        (DynamicDiagnosticIdentifier::CreateView, 84),
        (DynamicDiagnosticIdentifier::DeleteWhere, 19),
        (DynamicDiagnosticIdentifier::DropAssertion, 24),
        (DynamicDiagnosticIdentifier::DropCharacterSet, 25),
        (DynamicDiagnosticIdentifier::DropCollation, 26),
        (DynamicDiagnosticIdentifier::DropDomain, 27),
        (DynamicDiagnosticIdentifier::DropIndex, -2),
        (DynamicDiagnosticIdentifier::DropSchema, 31),
        (DynamicDiagnosticIdentifier::DropTable, 32),
        (DynamicDiagnosticIdentifier::DropTranslation, 33),
        (DynamicDiagnosticIdentifier::DropView, 36),
        (DynamicDiagnosticIdentifier::DynamicDeleteCursor, 38),
        (DynamicDiagnosticIdentifier::DynamicUpdateCursor, 81),
        (DynamicDiagnosticIdentifier::Grant, 48),
        (DynamicDiagnosticIdentifier::Insert, 50),
        (DynamicDiagnosticIdentifier::Revoke, 59),
        (DynamicDiagnosticIdentifier::SelectCursor, 85),
        (DynamicDiagnosticIdentifier::UnknownStatement, 0),
        (DynamicDiagnosticIdentifier::UpdateWhere, 82),
    ];
    for (variant, value) in table {
        assert_eq!(variant.raw(), value);
        assert_eq!(DynamicDiagnosticIdentifier::from_raw(value), Some(variant));
    }
}

#[test]
fn dynamic_diagnostic_identifier_rejects_unknown() {
    assert_eq!(DynamicDiagnosticIdentifier::from_raw(9999), None);
    assert_eq!(DynamicDiagnosticIdentifier::from_raw(86), None);
}

#[test]
fn async_connection_behavior_default_is_off() {
    let d = AsyncConnectionBehavior::default();
    assert_eq!(d, AsyncConnectionBehavior::Off);
    assert_eq!(d.raw(), 0);
}

#[test]
fn sql_data_type_version_4_values() {
    assert!(SqlDataType::Udt.is_version_4());
    assert!(SqlDataType::MultiSet.is_version_4());
    assert!(!SqlDataType::Varchar.is_version_4());
    assert_eq!(SqlDataType::from_raw(55), Some(SqlDataType::MultiSet));
    assert_eq!(SqlDataType::from_raw_version_3(55), None);
    assert_eq!(SqlDataType::from_raw_version_3(94), None);
    assert_eq!(SqlDataType::from_raw_version_3(93), Some(SqlDataType::Timestamp));
    assert_eq!(SqlDataType::from_raw_version_3(-155), Some(SqlDataType::SsTimestampOffset));
}
