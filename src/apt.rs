use vstd::prelude::*;
use vstd::string::StringSliceAdditionalSpecFns;

verus! {

/// Whether a byte string can be passed as a C string: it holds no zero byte.
pub open spec fn nul_free(b: Seq<u8>) -> bool {
    forall|i: int| 0 <= i < b.len() ==> b[i] != 0
}

/// Whether `s` can be passed to the package library as a C string.
pub fn is_c_compatible(s: &str) -> (r: bool)
    ensures
        r == nul_free(s.spec_bytes()),
{
    let b = s.as_bytes();
    let mut i: usize = 0;
    while i < b.len()
        invariant
            b@ == s.spec_bytes(),
            0 <= i <= b@.len(),
            forall|j: int| 0 <= j < i ==> b@[j] != 0,
        decreases b@.len() - i,
    {
        if b[i] == 0 {
            return false;
        }
        i = i + 1;
    }
    true
}

/// Why the package lock was not taken.
#[derive(Debug, Clone, Copy, PartialEq, Eq, Structural)]
pub enum LockError {
    /// The lock file's name holds a zero byte.
    InvalidFileName,
    /// The package library did not give the lock.
    NotAcquired,
}

impl LockError {
    /// A message for the log.
    pub fn message(&self) -> (r: &'static str)
        ensures
            *self == LockError::InvalidFileName ==> r@ == "Invalid file name"@,
            *self == LockError::NotAcquired ==> r@ == "Could not acquire lock (msg TODO)"@,
    {
        match self {
            LockError::InvalidFileName => "Invalid file name",
            LockError::NotAcquired => "Could not acquire lock (msg TODO)",
        }
    }
}

/// The advisory lock of the package system on one file.
pub struct AptFileLock<'a>(pub &'a str);

impl<'a> AptFileLock<'a> {
    /// The file to hand to the package library's lock call, where its name
    /// can be passed as a C string.
    pub fn lock_path(&self) -> (r: Result<&'a str, LockError>)
        ensures
            r.is_ok() == nul_free(self.0.spec_bytes()),
            r.is_ok() ==> r.unwrap()@ == self.0@,
            r.is_err() ==> r == Err::<&'a str, LockError>(LockError::InvalidFileName),
    {
        if is_c_compatible(self.0) {
            Ok(self.0)
        } else {
            Err(LockError::InvalidFileName)
        }
    }

    /// What the lock call's file descriptor means: a negative one says that
    /// the lock was not taken.
    pub fn lock_outcome(fd: i32) -> (r: Result<i32, LockError>)
        ensures
            fd >= 0 ==> r == Ok::<i32, LockError>(fd),
            fd < 0 ==> r == Err::<i32, LockError>(LockError::NotAcquired),
    {
        if fd < 0 {
            Err(LockError::NotAcquired)
        } else {
            Ok(fd)
        }
    }
}

/// Why a configuration value was not looked up.
#[derive(Debug, Clone, Copy, PartialEq, Eq, Structural)]
pub enum ConfigError {
    /// The key holds a zero byte.
    InvalidKey,
}

impl ConfigError {
    /// A message for the log.
    pub fn message(&self) -> (r: &'static str)
        ensures
            r@ == "Invalid key"@,
    {
        "Invalid key"
    }
}

/// The arguments of a configuration lookup, as the package library takes
/// them.
#[derive(Debug)]
pub struct ConfigQuery<'b> {
    pub key: &'b str,
    pub default: Option<&'b str>,
}

/// Access to the package system's configuration, once the package library
/// has been set up.
#[derive(Debug)]
pub struct Config {
    phantom: core::marker::PhantomData<()>,
}

impl Config {
    /// The handle on the configuration, to be made once the package library
    /// has been set up.
    pub fn initialised() -> (r: Config) {
        Config { phantom: core::marker::PhantomData }
    }

    /// The lookup of `key`, with `default` for a missing value. A key that
    /// cannot be passed as a C string is refused; a default that cannot be
    /// passed is left out.
    pub fn find_string_query<'b>(&self, key: &'b str, default: Option<&'b str>) -> (r: Result<
        ConfigQuery<'b>,
        ConfigError,
    >)
        ensures
            r.is_ok() == nul_free(key.spec_bytes()),
            r.is_err() ==> r == Err::<ConfigQuery<'b>, ConfigError>(ConfigError::InvalidKey),
            r.is_ok() ==> r.unwrap().key@ == key@,
            r.is_ok() ==> r.unwrap().default.is_some() == (default.is_some() && nul_free(
                default.unwrap().spec_bytes(),
            )),
            r.is_ok() && r.unwrap().default.is_some() ==> r.unwrap().default.unwrap()@
                == default.unwrap()@,
    {
        let kept = match default {
            Some(d) => if is_c_compatible(d) {
                Some(d)
            } else {
                None
            },
            None => None,
        };
        if is_c_compatible(key) {
            Ok(ConfigQuery { key, default: kept })
        } else {
            Err(ConfigError::InvalidKey)
        }
    }
}

} // verus!
