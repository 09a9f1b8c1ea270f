//! Data of the SQLite bindings: the handle types, and the result codes and options of the C API.
use vstd::prelude::*;

verus! {

/// A database connection, only ever handled by reference.
pub struct Connection {
    _data: [u8; 0],
}

/// A prepared statement, only ever handled by reference.
pub struct Statement {
    _data: [u8; 0],
}

/// A dynamically typed value, only ever handled by reference.
pub struct Value {
    _data: [u8; 0],
}

/// Successful result
pub const SQLITE_OK: i32 = 0;
/// Generic error
pub const SQLITE_ERROR: i32 = 1;
/// Internal logic error in SQLite
pub const SQLITE_INTERNAL: i32 = 2;
/// Access permission denied
pub const SQLITE_PERM: i32 = 3;
/// Callback routine requested an abort
pub const SQLITE_ABORT: i32 = 4;
/// The database file is locked
pub const SQLITE_BUSY: i32 = 5;
/// A table in the database is locked
pub const SQLITE_LOCKED: i32 = 6;
/// A malloc() failed
pub const SQLITE_NOMEM: i32 = 7;
/// Attempt to write a readonly database
pub const SQLITE_READONLY: i32 = 8;
/// Operation terminated by sqlite3_interrupt()
pub const SQLITE_INTERRUPT: i32 = 9;
/// Some kind of disk I/O error occurred
pub const SQLITE_IOERR: i32 = 10;
/// The database disk image is malformed
pub const SQLITE_CORRUPT: i32 = 11;
/// Unknown opcode in sqlite3_file_control()
pub const SQLITE_NOTFOUND: i32 = 12;
/// Insertion failed because database is full
pub const SQLITE_FULL: i32 = 13;
/// Unable to open the database file
pub const SQLITE_CANTOPEN: i32 = 14;
/// Database lock protocol error
pub const SQLITE_PROTOCOL: i32 = 15;
/// Internal use only
pub const SQLITE_EMPTY: i32 = 16;
/// The database schema changed
pub const SQLITE_SCHEMA: i32 = 17;
/// String or BLOB exceeds size limit
pub const SQLITE_TOOBIG: i32 = 18;
/// Abort due to constraint violation
pub const SQLITE_CONSTRAINT: i32 = 19;
/// Data type mismatch
pub const SQLITE_MISMATCH: i32 = 20;
/// Library used incorrectly
pub const SQLITE_MISUSE: i32 = 21;
/// Uses OS features not supported on host
pub const SQLITE_NOLFS: i32 = 22;
/// Authorization denied
pub const SQLITE_AUTH: i32 = 23;
/// Not used
pub const SQLITE_FORMAT: i32 = 24;
/// 2nd parameter to sqlite3_bind out of range
pub const SQLITE_RANGE: i32 = 25;
/// File opened that is not a database file
pub const SQLITE_NOTADB: i32 = 26;
/// Notifications from sqlite3_log()
pub const SQLITE_NOTICE: i32 = 27;
/// Warnings from sqlite3_log()
pub const SQLITE_WARNING: i32 = 28;
/// sqlite3_step() has another row ready
pub const SQLITE_ROW: i32 = 100;
/// sqlite3_step() has finished executing
pub const SQLITE_DONE: i32 = 101;

pub const SQLITE_ERROR_MISSING_COLLSEQ: i32 = SQLITE_ERROR | (1 << 8);
pub const SQLITE_ERROR_RETRY: i32 = SQLITE_ERROR | (2 << 8);
pub const SQLITE_ERROR_SNAPSHOT: i32 = SQLITE_ERROR | (3 << 8);
pub const SQLITE_IOERR_READ: i32 = SQLITE_IOERR | (1 << 8);
pub const SQLITE_IOERR_SHORT_READ: i32 = SQLITE_IOERR | (2 << 8);
pub const SQLITE_IOERR_WRITE: i32 = SQLITE_IOERR | (3 << 8);
pub const SQLITE_IOERR_FSYNC: i32 = SQLITE_IOERR | (4 << 8);
pub const SQLITE_IOERR_DIR_FSYNC: i32 = SQLITE_IOERR | (5 << 8);
pub const SQLITE_IOERR_TRUNCATE: i32 = SQLITE_IOERR | (6 << 8);
pub const SQLITE_IOERR_FSTAT: i32 = SQLITE_IOERR | (7 << 8);
pub const SQLITE_IOERR_UNLOCK: i32 = SQLITE_IOERR | (8 << 8);
pub const SQLITE_IOERR_RDLOCK: i32 = SQLITE_IOERR | (9 << 8);
pub const SQLITE_IOERR_DELETE: i32 = SQLITE_IOERR | (10 << 8);
pub const SQLITE_IOERR_BLOCKED: i32 = SQLITE_IOERR | (11 << 8);
pub const SQLITE_IOERR_NOMEM: i32 = SQLITE_IOERR | (12 << 8);
pub const SQLITE_IOERR_ACCESS: i32 = SQLITE_IOERR | (13 << 8);
pub const SQLITE_IOERR_CHECKRESERVEDLOCK: i32 = SQLITE_IOERR | (14 << 8);
pub const SQLITE_IOERR_LOCK: i32 = SQLITE_IOERR | (15 << 8);
pub const SQLITE_IOERR_CLOSE: i32 = SQLITE_IOERR | (16 << 8);
pub const SQLITE_IOERR_DIR_CLOSE: i32 = SQLITE_IOERR | (17 << 8);
pub const SQLITE_IOERR_SHMOPEN: i32 = SQLITE_IOERR | (18 << 8);
pub const SQLITE_IOERR_SHMSIZE: i32 = SQLITE_IOERR | (19 << 8);
pub const SQLITE_IOERR_SHMLOCK: i32 = SQLITE_IOERR | (20 << 8);
pub const SQLITE_IOERR_SHMMAP: i32 = SQLITE_IOERR | (21 << 8);
pub const SQLITE_IOERR_SEEK: i32 = SQLITE_IOERR | (22 << 8);
pub const SQLITE_IOERR_DELETE_NOENT: i32 = SQLITE_IOERR | (23 << 8);
pub const SQLITE_IOERR_MMAP: i32 = SQLITE_IOERR | (24 << 8);
pub const SQLITE_IOERR_GETTEMPPATH: i32 = SQLITE_IOERR | (25 << 8);
pub const SQLITE_IOERR_CONVPATH: i32 = SQLITE_IOERR | (26 << 8);
pub const SQLITE_IOERR_VNODE: i32 = SQLITE_IOERR | (27 << 8);
pub const SQLITE_IOERR_AUTH: i32 = SQLITE_IOERR | (28 << 8);
pub const SQLITE_IOERR_BEGIN_ATOMIC: i32 = SQLITE_IOERR | (29 << 8);
pub const SQLITE_IOERR_COMMIT_ATOMIC: i32 = SQLITE_IOERR | (30 << 8);
pub const SQLITE_IOERR_ROLLBACK_ATOMIC: i32 = SQLITE_IOERR | (31 << 8);
pub const SQLITE_IOERR_DATA: i32 = SQLITE_IOERR | (32 << 8);
pub const SQLITE_IOERR_CORRUPTFS: i32 = SQLITE_IOERR | (33 << 8);
pub const SQLITE_LOCKED_SHAREDCACHE: i32 = SQLITE_LOCKED | (1 << 8);
pub const SQLITE_LOCKED_VTAB: i32 = SQLITE_LOCKED | (2 << 8);
pub const SQLITE_BUSY_RECOVERY: i32 = SQLITE_BUSY | (1 << 8);
pub const SQLITE_BUSY_SNAPSHOT: i32 = SQLITE_BUSY | (2 << 8);
pub const SQLITE_BUSY_TIMEOUT: i32 = SQLITE_BUSY | (3 << 8);
pub const SQLITE_CANTOPEN_NOTEMPDIR: i32 = SQLITE_CANTOPEN | (1 << 8);
pub const SQLITE_CANTOPEN_ISDIR: i32 = SQLITE_CANTOPEN | (2 << 8);
pub const SQLITE_CANTOPEN_FULLPATH: i32 = SQLITE_CANTOPEN | (3 << 8);
pub const SQLITE_CANTOPEN_CONVPATH: i32 = SQLITE_CANTOPEN | (4 << 8);
pub const SQLITE_CANTOPEN_DIRTYWAL: i32 = SQLITE_CANTOPEN | (5 << 8);
pub const SQLITE_CANTOPEN_SYMLINK: i32 = SQLITE_CANTOPEN | (6 << 8);
pub const SQLITE_CORRUPT_VTAB: i32 = SQLITE_CORRUPT | (1 << 8);
pub const SQLITE_CORRUPT_SEQUENCE: i32 = SQLITE_CORRUPT | (2 << 8);
pub const SQLITE_CORRUPT_INDEX: i32 = SQLITE_CORRUPT | (3 << 8);
pub const SQLITE_READONLY_RECOVERY: i32 = SQLITE_READONLY | (1 << 8);
pub const SQLITE_READONLY_CANTLOCK: i32 = SQLITE_READONLY | (2 << 8);
pub const SQLITE_READONLY_ROLLBACK: i32 = SQLITE_READONLY | (3 << 8);
pub const SQLITE_READONLY_DBMOVED: i32 = SQLITE_READONLY | (4 << 8);
pub const SQLITE_READONLY_CANTINIT: i32 = SQLITE_READONLY | (5 << 8);
pub const SQLITE_READONLY_DIRECTORY: i32 = SQLITE_READONLY | (6 << 8);
pub const SQLITE_ABORT_ROLLBACK: i32 = SQLITE_ABORT | (2 << 8);
pub const SQLITE_CONSTRAINT_CHECK: i32 = SQLITE_CONSTRAINT | (1 << 8);
pub const SQLITE_CONSTRAINT_COMMITHOOK: i32 = SQLITE_CONSTRAINT | (2 << 8);
pub const SQLITE_CONSTRAINT_FOREIGNKEY: i32 = SQLITE_CONSTRAINT | (3 << 8);
pub const SQLITE_CONSTRAINT_FUNCTION: i32 = SQLITE_CONSTRAINT | (4 << 8);
pub const SQLITE_CONSTRAINT_NOTNULL: i32 = SQLITE_CONSTRAINT | (5 << 8);
pub const SQLITE_CONSTRAINT_PRIMARYKEY: i32 = SQLITE_CONSTRAINT | (6 << 8);
pub const SQLITE_CONSTRAINT_TRIGGER: i32 = SQLITE_CONSTRAINT | (7 << 8);
pub const SQLITE_CONSTRAINT_UNIQUE: i32 = SQLITE_CONSTRAINT | (8 << 8);
pub const SQLITE_CONSTRAINT_VTAB: i32 = SQLITE_CONSTRAINT | (9 << 8);
pub const SQLITE_CONSTRAINT_ROWID: i32 = SQLITE_CONSTRAINT | (10 << 8);
pub const SQLITE_CONSTRAINT_PINNED: i32 = SQLITE_CONSTRAINT | (11 << 8);
pub const SQLITE_CONSTRAINT_DATATYPE: i32 = SQLITE_CONSTRAINT | (12 << 8);
pub const SQLITE_NOTICE_RECOVER_WAL: i32 = SQLITE_NOTICE | (1 << 8);
pub const SQLITE_NOTICE_RECOVER_ROLLBACK: i32 = SQLITE_NOTICE | (2 << 8);
pub const SQLITE_NOTICE_RBU: i32 = SQLITE_NOTICE | (3 << 8);
pub const SQLITE_WARNING_AUTOINDEX: i32 = SQLITE_WARNING | (1 << 8);
pub const SQLITE_AUTH_USER: i32 = SQLITE_AUTH | (1 << 8);
pub const SQLITE_OK_LOAD_PERMANENTLY: i32 = SQLITE_OK | (1 << 8);
pub const SQLITE_OK_SYMLINK: i32 = SQLITE_OK | (2 << 8);

/// Args: nil
pub const SQLITE_CONFIG_SINGLETHREAD: i32 = 1;
/// Args: nil
pub const SQLITE_CONFIG_MULTITHREAD: i32 = 2;
/// Args: nil
pub const SQLITE_CONFIG_SERIALIZED: i32 = 3;
/// Args: sqlite3_mem_methods*
pub const SQLITE_CONFIG_MALLOC: i32 = 4;
/// Args: sqlite3_mem_methods*
pub const SQLITE_CONFIG_GETMALLOC: i32 = 5;
/// Args: No longer used
pub const SQLITE_CONFIG_SCRATCH: i32 = 6;
/// Args: void*, int sz, int N
pub const SQLITE_CONFIG_PAGECACHE: i32 = 7;
/// Args: void*, int nByte, int min
pub const SQLITE_CONFIG_HEAP: i32 = 8;
/// Args: boolean
pub const SQLITE_CONFIG_MEMSTATUS: i32 = 9;
/// Args: sqlite3_mutex_methods*
pub const SQLITE_CONFIG_MUTEX: i32 = 10;
/// Args: sqlite3_mutex_methods*
pub const SQLITE_CONFIG_GETMUTEX: i32 = 11;
/// Args: int int
pub const SQLITE_CONFIG_LOOKASIDE: i32 = 13;
/// Args: no-op
pub const SQLITE_CONFIG_PCACHE: i32 = 14;
/// Args: no-op
pub const SQLITE_CONFIG_GETPCACHE: i32 = 15;
/// Args: xFunc, void*
pub const SQLITE_CONFIG_LOG: i32 = 16;
/// Args: int
pub const SQLITE_CONFIG_URI: i32 = 17;
/// Args: sqlite3_pcache_methods2*
pub const SQLITE_CONFIG_PCACHE2: i32 = 18;
/// Args: sqlite3_pcache_methods2*
pub const SQLITE_CONFIG_GETPCACHE2: i32 = 19;
/// Args: int
pub const SQLITE_CONFIG_COVERING_INDEX_SCAN: i32 = 20;
/// Args: xSqllog, void*
pub const SQLITE_CONFIG_SQLLOG: i32 = 21;
/// Args: sqlite3_int64, sqlite3_int64
pub const SQLITE_CONFIG_MMAP_SIZE: i32 = 22;
/// Args: int nByte
pub const SQLITE_CONFIG_WIN32_HEAPSIZE: i32 = 23;
/// Args: int *psz
pub const SQLITE_CONFIG_PCACHE_HDRSZ: i32 = 24;
/// Args: unsigned int szPma
pub const SQLITE_CONFIG_PMASZ: i32 = 25;
/// Args: int nByte
pub const SQLITE_CONFIG_STMTJRNL_SPILL: i32 = 26;
/// Args: boolean
pub const SQLITE_CONFIG_SMALL_MALLOC: i32 = 27;
/// Args: int nByte
pub const SQLITE_CONFIG_SORTERREF_SIZE: i32 = 28;
/// Args: sqlite3_int64
pub const SQLITE_CONFIG_MEMDB_MAXSIZE: i32 = 29;

/// Args: const char*
pub const SQLITE_DBCONFIG_MAINDBNAME: i32 = 1000;
/// Args: void* int int
pub const SQLITE_DBCONFIG_LOOKASIDE: i32 = 1001;
/// Args: int int*
pub const SQLITE_DBCONFIG_ENABLE_FKEY: i32 = 1002;
/// Args: int int*
pub const SQLITE_DBCONFIG_ENABLE_TRIGGER: i32 = 1003;
/// Args: int int*
pub const SQLITE_DBCONFIG_ENABLE_FTS3_TOKENIZER: i32 = 1004;
/// Args: int int*
pub const SQLITE_DBCONFIG_ENABLE_LOAD_EXTENSION: i32 = 1005;
/// Args: int int*
pub const SQLITE_DBCONFIG_NO_CKPT_ON_CLOSE: i32 = 1006;
/// Args: int int*
pub const SQLITE_DBCONFIG_ENABLE_QPSG: i32 = 1007;
/// Args: int int*
pub const SQLITE_DBCONFIG_TRIGGER_EQP: i32 = 1008;
/// Args: int int*
pub const SQLITE_DBCONFIG_RESET_DATABASE: i32 = 1009;
/// Args: int int*
pub const SQLITE_DBCONFIG_DEFENSIVE: i32 = 1010;
/// Args: int int*
pub const SQLITE_DBCONFIG_WRITABLE_SCHEMA: i32 = 1011;
/// Args: int int*
pub const SQLITE_DBCONFIG_LEGACY_ALTER_TABLE: i32 = 1012;
/// Args: int int*
pub const SQLITE_DBCONFIG_DQS_DML: i32 = 1013;
/// Args: int int*
pub const SQLITE_DBCONFIG_DQS_DDL: i32 = 1014;
/// Args: int int*
pub const SQLITE_DBCONFIG_ENABLE_VIEW: i32 = 1015;
/// Args: int int*
pub const SQLITE_DBCONFIG_LEGACY_FILE_FORMAT: i32 = 1016;
/// Args: int int*
pub const SQLITE_DBCONFIG_TRUSTED_SCHEMA: i32 = 1017;
/// Args: int int*
pub const SQLITE_DBCONFIG_STMT_SCANSTATUS: i32 = 1018;
/// Args: int int*
pub const SQLITE_DBCONFIG_REVERSE_SCANORDER: i32 = 1019;
/// Args: Largest DBCONFIG
pub const SQLITE_DBCONFIG_MAX: i32 = 1019;

/// Ok for sqlite3_open_v2()
pub const SQLITE_OPEN_READONLY: i32 = 0x00000001;
/// Ok for sqlite3_open_v2()
pub const SQLITE_OPEN_READWRITE: i32 = 0x00000002;
/// Ok for sqlite3_open_v2()
pub const SQLITE_OPEN_CREATE: i32 = 0x00000004;
/// VFS only
pub const SQLITE_OPEN_DELETEONCLOSE: i32 = 0x00000008;
/// VFS only
pub const SQLITE_OPEN_EXCLUSIVE: i32 = 0x00000010;
/// VFS only
pub const SQLITE_OPEN_AUTOPROXY: i32 = 0x00000020;
/// Ok for sqlite3_open_v2()
pub const SQLITE_OPEN_URI: i32 = 0x00000040;
/// Ok for sqlite3_open_v2()
pub const SQLITE_OPEN_MEMORY: i32 = 0x00000080;
/// VFS only
pub const SQLITE_OPEN_MAIN_DB: i32 = 0x00000100;
/// VFS only
pub const SQLITE_OPEN_TEMP_DB: i32 = 0x00000200;
/// VFS only
pub const SQLITE_OPEN_TRANSIENT_DB: i32 = 0x00000400;
/// VFS only
pub const SQLITE_OPEN_MAIN_JOURNAL: i32 = 0x00000800;
/// VFS only
pub const SQLITE_OPEN_TEMP_JOURNAL: i32 = 0x00001000;
/// VFS only
pub const SQLITE_OPEN_SUBJOURNAL: i32 = 0x00002000;
/// VFS only
pub const SQLITE_OPEN_SUPER_JOURNAL: i32 = 0x00004000;
/// Ok for sqlite3_open_v2()
pub const SQLITE_OPEN_NOMUTEX: i32 = 0x00008000;
/// Ok for sqlite3_open_v2()
pub const SQLITE_OPEN_FULLMUTEX: i32 = 0x00010000;
/// Ok for sqlite3_open_v2()
pub const SQLITE_OPEN_SHAREDCACHE: i32 = 0x00020000;
/// Ok for sqlite3_open_v2()
pub const SQLITE_OPEN_PRIVATECACHE: i32 = 0x00040000;
/// VFS only
pub const SQLITE_OPEN_WAL: i32 = 0x00080000;
/// Ok for sqlite3_open_v2()
pub const SQLITE_OPEN_NOFOLLOW: i32 = 0x01000000;

} // verus!
