use update_broker::{is_c_compatible, AptFileLock, Config, ConfigError, LockError};

#[test]
fn c_compatible_strings() {
    assert!(is_c_compatible("/var/lib/dpkg/lock"));
    assert!(is_c_compatible(""));
    assert!(!is_c_compatible("a\0b"));
}

#[test]
fn lock_path_refuses_zero_byte() {
    assert_eq!(AptFileLock("/var/lib/dpkg/lock").lock_path(), Ok("/var/lib/dpkg/lock"));
    assert_eq!(AptFileLock("bad\0name").lock_path(), Err(LockError::InvalidFileName));
    assert_eq!(LockError::InvalidFileName.message(), "Invalid file name");
}

#[test]
fn lock_outcome_of_descriptor() {
    assert_eq!(AptFileLock::lock_outcome(3), Ok(3));
    assert_eq!(AptFileLock::lock_outcome(0), Ok(0));
    assert_eq!(AptFileLock::lock_outcome(-1), Err(LockError::NotAcquired));
    assert_eq!(LockError::NotAcquired.message(), "Could not acquire lock (msg TODO)");
}

#[test]
fn config_query() {
    let c = Config::initialised();
    let q = c.find_string_query("Dir::Cache", Some("/var/cache")).unwrap();
    assert_eq!(q.key, "Dir::Cache");
    assert_eq!(q.default, Some("/var/cache"));
    let q = c.find_string_query("Dir::Cache", Some("x\0y")).unwrap();
    assert_eq!(q.default, None);
    let q = c.find_string_query("Dir", None).unwrap();
    assert_eq!(q.default, None);
    assert_eq!(c.find_string_query("a\0b", None).unwrap_err(), ConfigError::InvalidKey);
    assert_eq!(ConfigError::InvalidKey.message(), "Invalid key");
}
