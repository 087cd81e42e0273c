//! Configuration of the columnar table store.
use crate::display::concat;
use vstd::prelude::*;

verus! {

/// Default maximum size of a column file before it is split: one gibibyte.
pub const DEFAULT_MAX_FILE_SIZE: usize = 1073741824;

/// Default buffer size for memory-mapped files.
pub const DEFAULT_MMAP_BUFFER_SIZE: usize = 8192;

/// Configuration of a table store.
#[derive(Debug, Clone)]
pub struct QStoreConfig {
    /// Base directory for table data.
    pub data_dir: String,
    /// Table name.
    pub table_name: String,
    /// Maximum file size before splitting, in bytes.
    pub max_file_size: usize,
    /// Whether column files are compressed.
    pub enable_compression: bool,
    /// Buffer size for memory-mapped files.
    pub mmap_buffer_size: usize,
}

/// `base` joined with `name` by a path separator.
pub open spec fn join_path(base: Seq<char>, name: Seq<char>) -> Seq<char> {
    base + "/"@ + name
}

fn join(base: &str, name: &str) -> (r: String)
    ensures
        r@ == join_path(base@, name@),
{
    let a = concat(base, "/");
    concat(a.as_str(), name)
}

impl QStoreConfig {
    /// A configuration with default sizes and no compression.
    pub fn new(data_dir: String, table_name: String) -> (r: QStoreConfig)
        ensures
            r.data_dir == data_dir,
            r.table_name == table_name,
            r.max_file_size == DEFAULT_MAX_FILE_SIZE,
            !r.enable_compression,
            r.mmap_buffer_size == DEFAULT_MMAP_BUFFER_SIZE,
    {
        QStoreConfig {
            data_dir,
            table_name,
            max_file_size: DEFAULT_MAX_FILE_SIZE,
            enable_compression: false,
            mmap_buffer_size: DEFAULT_MMAP_BUFFER_SIZE,
        }
    }

    /// Path of the file of one column.
    pub fn column_path(&self, column_name: &str) -> (r: String)
        ensures
            r@ == join_path(join_path(self.data_dir@, self.table_name@), column_name@),
    {
        let t = self.table_path();
        join(t.as_str(), column_name)
    }

    /// Path of the table's directory.
    pub fn table_path(&self) -> (r: String)
        ensures
            r@ == join_path(self.data_dir@, self.table_name@),
    {
        join(self.data_dir.as_str(), self.table_name.as_str())
    }

    /// The same configuration with compression set.
    pub fn with_compression(self, enabled: bool) -> (r: QStoreConfig)
        ensures
            r == (QStoreConfig { enable_compression: enabled, ..self }),
    {
        QStoreConfig { enable_compression: enabled, ..self }
    }

    /// The same configuration with another maximum file size.
    pub fn with_max_file_size(self, size: usize) -> (r: QStoreConfig)
        ensures
            r == (QStoreConfig { max_file_size: size, ..self }),
    {
        QStoreConfig { max_file_size: size, ..self }
    }

    /// The same configuration with another buffer size.
    pub fn with_mmap_buffer_size(self, size: usize) -> (r: QStoreConfig)
        ensures
            r == (QStoreConfig { mmap_buffer_size: size, ..self }),
    {
        QStoreConfig { mmap_buffer_size: size, ..self }
    }
}

impl Default for QStoreConfig {
    fn default() -> (r: QStoreConfig)
        ensures
            r.data_dir@ == "data"@,
            r.table_name@ == "default_table"@,
            r.max_file_size == DEFAULT_MAX_FILE_SIZE,
            !r.enable_compression,
            r.mmap_buffer_size == DEFAULT_MMAP_BUFFER_SIZE,
    {
        QStoreConfig::new(String::from_str("data"), String::from_str("default_table"))
    }
}

} // verus!
