use vstd::prelude::*;

verus! {

/// Log files kept when the configuration names no number.
pub const DEFAULT_LOG_FILE_NUM: usize = 2;

/// Largest size of one log file, in bytes, when the configuration names none.
pub const DEFAULT_LOG_FILE_SIZE: usize = 20_000_000;

/// Largest total size of the write-ahead log, in bytes, when the
/// configuration names none.
pub const DEFAULT_MAX_TOTAL_WAL_SIZE: u64 = 10_485_760;

/// Bytes written between two background syncs when the configuration names
/// no number.
pub const DEFAULT_BYTES_PER_SYNC: u64 = 65_536;

/// Tuning knobs of the storage engine as a configuration file gives them.
/// An absent entry stands for the engine default of this layer.
#[derive(Clone, Debug)]
pub struct RocksdbOptions {
    pub create_if_missing: bool,
    pub atomic_flush: bool,
    pub use_fsync: Option<bool>,
    pub log_file_num: Option<usize>,
    pub log_file_size: Option<usize>,
    pub max_total_wal_size: Option<u64>,
    pub bytes_per_sync: Option<u64>,
}

/// The value of every tuning knob after absent entries have been filled in.
#[derive(Clone, Copy, Debug, PartialEq, Eq, Structural)]
pub struct EngineSettings {
    pub create_if_missing: bool,
    pub atomic_flush: bool,
    pub use_fsync: bool,
    pub keep_log_file_num: usize,
    pub max_log_file_size: usize,
    pub max_total_wal_size: u64,
    pub bytes_per_sync: u64,
}

impl RocksdbOptions {
    /// The configuration used when none is given.
    pub open spec fn spec_default() -> RocksdbOptions {
        RocksdbOptions {
            create_if_missing: true,
            atomic_flush: false,
            use_fsync: Some(true),
            log_file_num: Some(DEFAULT_LOG_FILE_NUM),
            log_file_size: Some(DEFAULT_LOG_FILE_SIZE),
            max_total_wal_size: Some(DEFAULT_MAX_TOTAL_WAL_SIZE),
            bytes_per_sync: Some(DEFAULT_BYTES_PER_SYNC),
        }
    }

    /// What the engine is to be set to: each given entry as it is, each
    /// absent one replaced by its default.
    pub open spec fn spec_settings(self) -> EngineSettings {
        EngineSettings {
            create_if_missing: self.create_if_missing,
            atomic_flush: self.atomic_flush,
            use_fsync: match self.use_fsync {
                Some(v) => v,
                None => true,
            },
            keep_log_file_num: match self.log_file_num {
                Some(v) => v,
                None => DEFAULT_LOG_FILE_NUM,
            },
            max_log_file_size: match self.log_file_size {
                Some(v) => v,
                None => DEFAULT_LOG_FILE_SIZE,
            },
            max_total_wal_size: match self.max_total_wal_size {
                Some(v) => v,
                None => DEFAULT_MAX_TOTAL_WAL_SIZE,
            },
            bytes_per_sync: match self.bytes_per_sync {
                Some(v) => v,
                None => DEFAULT_BYTES_PER_SYNC,
            },
        }
    }

    /// Fills in the absent entries.
    pub fn settings(&self) -> (s: EngineSettings)
        ensures
            s == self.spec_settings(),
    {
        EngineSettings {
            create_if_missing: self.create_if_missing,
            atomic_flush: self.atomic_flush,
            use_fsync: self.use_fsync.unwrap_or(true),
            keep_log_file_num: self.log_file_num.unwrap_or(DEFAULT_LOG_FILE_NUM),
            max_log_file_size: self.log_file_size.unwrap_or(DEFAULT_LOG_FILE_SIZE),
            max_total_wal_size: self.max_total_wal_size.unwrap_or(DEFAULT_MAX_TOTAL_WAL_SIZE),
            bytes_per_sync: self.bytes_per_sync.unwrap_or(DEFAULT_BYTES_PER_SYNC),
        }
    }
}

impl From<RocksdbOptions> for EngineSettings {
    fn from(options: RocksdbOptions) -> (s: EngineSettings) {
        options.settings()
    }
}

impl vstd::std_specs::convert::FromSpecImpl<RocksdbOptions> for EngineSettings {
    open spec fn obeys_from_spec() -> bool {
        true
    }

    open spec fn from_spec(options: RocksdbOptions) -> EngineSettings {
        options.spec_settings()
    }
}

impl Default for RocksdbOptions {
    fn default() -> (o: RocksdbOptions)
        ensures
            o == RocksdbOptions::spec_default(),
    {
        RocksdbOptions {
            create_if_missing: true,
            atomic_flush: false,
            use_fsync: Some(true),
            log_file_num: Some(DEFAULT_LOG_FILE_NUM),
            log_file_size: Some(DEFAULT_LOG_FILE_SIZE),
            max_total_wal_size: Some(DEFAULT_MAX_TOTAL_WAL_SIZE),
            bytes_per_sync: Some(DEFAULT_BYTES_PER_SYNC),
        }
    }
}

/// Filling in the default configuration changes none of its entries: every
/// knob in it is given.
pub proof fn lemma_default_settings()
    ensures
        RocksdbOptions::spec_default().spec_settings() == (EngineSettings {
            create_if_missing: true,
            atomic_flush: false,
            use_fsync: true,
            keep_log_file_num: 2,
            max_log_file_size: 20_000_000,
            max_total_wal_size: 10_485_760,
            bytes_per_sync: 65_536,
        }),
{
}

} // verus!
