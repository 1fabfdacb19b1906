use vstd::prelude::*;

verus! {

/// The three picker scripts and the command that opens a terminal for them.
/// Loaded and checked once at start-up, then only read.
pub struct Config {
    pub open_file_script_path: String,
    pub save_file_script_path: String,
    pub save_files_script_path: String,
    pub terminal_command: String,
}

/// Why a configured script cannot be used.
#[derive(Debug, Clone, PartialEq, Eq)]
pub enum ConfigError {
    /// The path names no regular file.
    NotAFile,
    /// The file has no execute bit for anyone.
    NotExecutable,
}

/// The execute bits of owner, group and others.
pub const EXECUTE_BITS: u32 = 0o111;

impl Config {
    /// Decides whether a script may be used, from what the file system says
    /// of its path: whether it is a regular file, and its permission bits
    /// where they could be read. Unreadable permissions do not reject it.
    pub fn is_valid_script(is_file: bool, mode: Option<u32>) -> (r: Result<(), ConfigError>)
        ensures
            !is_file ==> r == Err::<(), ConfigError>(ConfigError::NotAFile),
            is_file && (mode matches Some(m) && m & EXECUTE_BITS == 0) ==> r == Err::<
                (),
                ConfigError,
            >(ConfigError::NotExecutable),
            is_file && !(mode matches Some(m) && m & EXECUTE_BITS == 0) ==> r is Ok,
    {
        if !is_file {
            return Err(ConfigError::NotAFile);
        }
        if let Some(m) = mode {
            if m & EXECUTE_BITS == 0 {
                return Err(ConfigError::NotExecutable);
            }
        }
        Ok(())
    }
}

} // verus!
