use vstd::prelude::*;

verus! {

/// Statement attributes for `SQLSetStmtAttr`
#[derive(Debug, PartialEq, Eq, Clone, Copy, Hash, Structural)]
pub enum StatementAttribute {
    AsyncEnable,
    ParamBindType,
    ParamsetSize,
    RowBindType,
    RowArraySize,
    RowsFetchedPtr,
    AsyncStmtEvent,
}

impl StatementAttribute {
    /// The integer that stands for the variant in the C API.
    pub open spec fn spec_raw(self) -> i32 {
        match self {
            StatementAttribute::AsyncEnable => 4,
            StatementAttribute::ParamBindType => 18,
            StatementAttribute::ParamsetSize => 22,
            StatementAttribute::RowBindType => 5,
            StatementAttribute::RowArraySize => 27,
            StatementAttribute::RowsFetchedPtr => 26,
            StatementAttribute::AsyncStmtEvent => 29,
        }
    }

    /// The integer that stands for the variant in the C API.
    pub fn raw(self) -> (r: i32)
        ensures
            r == self.spec_raw(),
    {
        match self {
            StatementAttribute::AsyncEnable => 4,
            StatementAttribute::ParamBindType => 18,
            StatementAttribute::ParamsetSize => 22,
            StatementAttribute::RowBindType => 5,
            StatementAttribute::RowArraySize => 27,
            StatementAttribute::RowsFetchedPtr => 26,
            StatementAttribute::AsyncStmtEvent => 29,
        }
    }

    /// The variant that `raw` stands for; `None` where no variant of the group has that value.
    pub open spec fn spec_from_raw(raw: i32) -> Option<StatementAttribute> {
        match raw {
            4 => Some(StatementAttribute::AsyncEnable),
            18 => Some(StatementAttribute::ParamBindType),
            22 => Some(StatementAttribute::ParamsetSize),
            5 => Some(StatementAttribute::RowBindType),
            27 => Some(StatementAttribute::RowArraySize),
            26 => Some(StatementAttribute::RowsFetchedPtr),
            29 => Some(StatementAttribute::AsyncStmtEvent),
            _ => None,
        }
    }

    /// The variant that `raw` stands for; `None` where no variant of the group has that value.
    pub fn from_raw(raw: i32) -> (r: Option<StatementAttribute>)
        ensures
            r == Self::spec_from_raw(raw),
            forall|e: StatementAttribute| r == Some(e) <==> #[trigger] e.spec_raw() == raw,
    {
        match raw {
            4 => Some(StatementAttribute::AsyncEnable),
            18 => Some(StatementAttribute::ParamBindType),
            22 => Some(StatementAttribute::ParamsetSize),
            5 => Some(StatementAttribute::RowBindType),
            27 => Some(StatementAttribute::RowArraySize),
            26 => Some(StatementAttribute::RowsFetchedPtr),
            29 => Some(StatementAttribute::AsyncStmtEvent),
            _ => None,
        }
    }

    /// No two variants share an integer.
    pub proof fn lemma_raw_injective(a: StatementAttribute, b: StatementAttribute)
        ensures
            a.spec_raw() == b.spec_raw() ==> a == b,
    {
    }
}

/// Connection attributes for `SQLSetConnectAttr`
#[derive(Debug, PartialEq, Eq, Clone, Copy, Hash, Structural)]
pub enum ConnectionAttribute {
    AsyncEnable,
    AccessMode,
    AutoCommit,
    LoginTimeout,
    Trace,
    TraceFile,
    TranslateLib,
    TranslateOption,
    TxnIsolation,
    CurrentCatalog,
    OdbcCursors,
    QuietMode,
    PacketSize,
    ConnectionTimeout,
    DisconnectBehaviour,
    AsyncDbcFunctionsEnable,
    AsyncDbcEvent,
    EnlistInDtc,
    EnlistInXa,
    ConnectionDead,
    AutoIpd,
    MetadataId,
}

impl ConnectionAttribute {
    /// The integer that stands for the variant in the C API.
    pub open spec fn spec_raw(self) -> i32 {
        match self {
            ConnectionAttribute::AsyncEnable => 4,
            ConnectionAttribute::AccessMode => 101,
            ConnectionAttribute::AutoCommit => 102,
            ConnectionAttribute::LoginTimeout => 103,
            ConnectionAttribute::Trace => 104,
            ConnectionAttribute::TraceFile => 105,
            ConnectionAttribute::TranslateLib => 106,
            ConnectionAttribute::TranslateOption => 107,
            ConnectionAttribute::TxnIsolation => 108,
            ConnectionAttribute::CurrentCatalog => 109,
            ConnectionAttribute::OdbcCursors => 110,
            ConnectionAttribute::QuietMode => 111,
            ConnectionAttribute::PacketSize => 112,
            ConnectionAttribute::ConnectionTimeout => 113,
            ConnectionAttribute::DisconnectBehaviour => 114,
            ConnectionAttribute::AsyncDbcFunctionsEnable => 117,
            ConnectionAttribute::AsyncDbcEvent => 119,
            ConnectionAttribute::EnlistInDtc => 1207,
            ConnectionAttribute::EnlistInXa => 1208,
            ConnectionAttribute::ConnectionDead => 1209,
            ConnectionAttribute::AutoIpd => 10001,
            ConnectionAttribute::MetadataId => 10014,
        }
    }

    /// The integer that stands for the variant in the C API.
    pub fn raw(self) -> (r: i32)
        ensures
            r == self.spec_raw(),
    {
        match self {
            ConnectionAttribute::AsyncEnable => 4,
            ConnectionAttribute::AccessMode => 101,
            ConnectionAttribute::AutoCommit => 102,
            ConnectionAttribute::LoginTimeout => 103,
            ConnectionAttribute::Trace => 104,
            ConnectionAttribute::TraceFile => 105,
            ConnectionAttribute::TranslateLib => 106,
            ConnectionAttribute::TranslateOption => 107,
            ConnectionAttribute::TxnIsolation => 108,
            ConnectionAttribute::CurrentCatalog => 109,
            ConnectionAttribute::OdbcCursors => 110,
            ConnectionAttribute::QuietMode => 111,
            ConnectionAttribute::PacketSize => 112,
            ConnectionAttribute::ConnectionTimeout => 113,
            ConnectionAttribute::DisconnectBehaviour => 114,
            ConnectionAttribute::AsyncDbcFunctionsEnable => 117,
            ConnectionAttribute::AsyncDbcEvent => 119,
            ConnectionAttribute::EnlistInDtc => 1207,
            ConnectionAttribute::EnlistInXa => 1208,
            ConnectionAttribute::ConnectionDead => 1209,
            ConnectionAttribute::AutoIpd => 10001,
            ConnectionAttribute::MetadataId => 10014,
        }
    }

    /// The variant that `raw` stands for; `None` where no variant of the group has that value.
    pub open spec fn spec_from_raw(raw: i32) -> Option<ConnectionAttribute> {
        match raw {
            4 => Some(ConnectionAttribute::AsyncEnable),
            101 => Some(ConnectionAttribute::AccessMode),
            102 => Some(ConnectionAttribute::AutoCommit),
            103 => Some(ConnectionAttribute::LoginTimeout),
            104 => Some(ConnectionAttribute::Trace),
            105 => Some(ConnectionAttribute::TraceFile),
            106 => Some(ConnectionAttribute::TranslateLib),
            107 => Some(ConnectionAttribute::TranslateOption),
            108 => Some(ConnectionAttribute::TxnIsolation),
            109 => Some(ConnectionAttribute::CurrentCatalog),
            110 => Some(ConnectionAttribute::OdbcCursors),
            111 => Some(ConnectionAttribute::QuietMode),
            112 => Some(ConnectionAttribute::PacketSize),
            113 => Some(ConnectionAttribute::ConnectionTimeout),
            114 => Some(ConnectionAttribute::DisconnectBehaviour),
            117 => Some(ConnectionAttribute::AsyncDbcFunctionsEnable),
            119 => Some(ConnectionAttribute::AsyncDbcEvent),
            1207 => Some(ConnectionAttribute::EnlistInDtc),
            1208 => Some(ConnectionAttribute::EnlistInXa),
            1209 => Some(ConnectionAttribute::ConnectionDead),
            10001 => Some(ConnectionAttribute::AutoIpd),
            10014 => Some(ConnectionAttribute::MetadataId),
            _ => None,
        }
    }

    /// The variant that `raw` stands for; `None` where no variant of the group has that value.
    pub fn from_raw(raw: i32) -> (r: Option<ConnectionAttribute>)
        ensures
            r == Self::spec_from_raw(raw),
            forall|e: ConnectionAttribute| r == Some(e) <==> #[trigger] e.spec_raw() == raw,
    {
        match raw {
            4 => Some(ConnectionAttribute::AsyncEnable),
            101 => Some(ConnectionAttribute::AccessMode),
            102 => Some(ConnectionAttribute::AutoCommit),
            103 => Some(ConnectionAttribute::LoginTimeout),
            104 => Some(ConnectionAttribute::Trace),
            105 => Some(ConnectionAttribute::TraceFile),
            106 => Some(ConnectionAttribute::TranslateLib),
            107 => Some(ConnectionAttribute::TranslateOption),
            108 => Some(ConnectionAttribute::TxnIsolation),
            109 => Some(ConnectionAttribute::CurrentCatalog),
            110 => Some(ConnectionAttribute::OdbcCursors),
            111 => Some(ConnectionAttribute::QuietMode),
            112 => Some(ConnectionAttribute::PacketSize),
            113 => Some(ConnectionAttribute::ConnectionTimeout),
            114 => Some(ConnectionAttribute::DisconnectBehaviour),
            117 => Some(ConnectionAttribute::AsyncDbcFunctionsEnable),
            119 => Some(ConnectionAttribute::AsyncDbcEvent),
            1207 => Some(ConnectionAttribute::EnlistInDtc),
            1208 => Some(ConnectionAttribute::EnlistInXa),
            1209 => Some(ConnectionAttribute::ConnectionDead),
            10001 => Some(ConnectionAttribute::AutoIpd),
            10014 => Some(ConnectionAttribute::MetadataId),
            _ => None,
        }
    }

    /// No two variants share an integer.
    pub proof fn lemma_raw_injective(a: ConnectionAttribute, b: ConnectionAttribute)
        ensures
            a.spec_raw() == b.spec_raw() ==> a == b,
    {
    }
}

/// Whether functions on a connection run asynchronously (SQL_ATTR_ASYNC_DBC_FUNCTIONS_ENABLE).
#[derive(Debug, PartialEq, Eq, Clone, Copy, Hash, Structural)]
pub enum AsyncConnectionBehavior {
    /// SQL_ASYNC_DBC_ENABLE_ON
    On,
    /// SQL_ASYNC_DBC_ENABLE_OFF = 0,
    Off,
}

impl AsyncConnectionBehavior {
    /// The integer that stands for the variant in the C API.
    pub open spec fn spec_raw(self) -> i32 {
        match self {
            AsyncConnectionBehavior::On => 1,
            AsyncConnectionBehavior::Off => 0,
        }
    }

    /// The integer that stands for the variant in the C API.
    pub fn raw(self) -> (r: i32)
        ensures
            r == self.spec_raw(),
    {
        match self {
            AsyncConnectionBehavior::On => 1,
            AsyncConnectionBehavior::Off => 0,
        }
    }

    /// The variant that `raw` stands for; `None` where no variant of the group has that value.
    pub open spec fn spec_from_raw(raw: i32) -> Option<AsyncConnectionBehavior> {
        match raw {
            1 => Some(AsyncConnectionBehavior::On),
            0 => Some(AsyncConnectionBehavior::Off),
            _ => None,
        }
    }

    /// The variant that `raw` stands for; `None` where no variant of the group has that value.
    pub fn from_raw(raw: i32) -> (r: Option<AsyncConnectionBehavior>)
        ensures
            r == Self::spec_from_raw(raw),
            forall|e: AsyncConnectionBehavior| r == Some(e) <==> #[trigger] e.spec_raw() == raw,
    {
        match raw {
            1 => Some(AsyncConnectionBehavior::On),
            0 => Some(AsyncConnectionBehavior::Off),
            _ => None,
        }
    }

    /// No two variants share an integer.
    pub proof fn lemma_raw_injective(a: AsyncConnectionBehavior, b: AsyncConnectionBehavior)
        ensures
            a.spec_raw() == b.spec_raw() ==> a == b,
    {
    }
}

impl Default for AsyncConnectionBehavior {
    /// Off: the state of a connection on which the attribute has not been set.
    fn default() -> (r: AsyncConnectionBehavior)
        ensures
            r == AsyncConnectionBehavior::Off,
            r.spec_raw() == 0,
    {
        AsyncConnectionBehavior::Off
    }
}

} // verus!
