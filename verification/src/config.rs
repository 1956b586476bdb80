//! Configuration: the raw record filled from the command line, and its
//! validated form.  Whether a named path is really a directory only the
//! host can tell, so each directory check takes that answer as a plain
//! truth value; everything else — presence of the fields and the joining of
//! host and port into the server address — is decided and proved here.

use vstd::prelude::*;
use vstd::string::StringExecFns;

use crate::cli::Args;
use crate::num::dec_digits;
use crate::num::u64_to_dec;

verus! {

/// The raw configuration: a superset of what the command line carries;
/// every field may still be missing.
#[derive(Debug)]
pub struct Config {
    pub mount_point: Option<String>,
    pub cache_dir: Option<String>,
    pub log_dir: Option<String>,
    pub mega_host: Option<String>,
    pub mega_port: Option<u16>,
}

impl Config {
    /// Fill the configuration from the parsed command line.
    pub fn from(args: Args) -> (r: Config)
        ensures
            r.mount_point == args.mount_point,
            r.cache_dir == args.cache_dir,
            r.log_dir == args.log_dir,
            r.mega_host == args.mega_host,
            r.mega_port == args.mega_port,
    {
        Config {
            mount_point: args.mount_point,
            cache_dir: args.cache_dir,
            log_dir: args.log_dir,
            mega_host: args.mega_host,
            mega_port: args.mega_port,
        }
    }

    /// Take the mount point if it was given and `is_dir` confirms it names
    /// a directory.
    pub fn validate_mount_point(&mut self, is_dir: bool) -> (r: Result<String, ()>)
        ensures
            r is Ok <==> (old(self).mount_point is Some && is_dir),
            r is Err ==> *final(self) == *old(self),
            r matches Ok(p) ==> {
                &&& p == old(self).mount_point->0
                &&& final(self).mount_point is None
                &&& final(self).cache_dir == old(self).cache_dir
                &&& final(self).log_dir == old(self).log_dir
                &&& final(self).mega_host == old(self).mega_host
                &&& final(self).mega_port == old(self).mega_port
            },
    {
        if self.mount_point.is_some() && is_dir {
            Ok(self.mount_point.take().unwrap())
        } else {
            Err(())
        }
    }

    /// Take the cache directory if it was given and `is_dir` confirms it
    /// names a directory.
    pub fn validate_cache_dir(&mut self, is_dir: bool) -> (r: Result<String, ()>)
        ensures
            r is Ok <==> (old(self).cache_dir is Some && is_dir),
            r is Err ==> *final(self) == *old(self),
            r matches Ok(p) ==> {
                &&& p == old(self).cache_dir->0
                &&& final(self).cache_dir is None
                &&& final(self).mount_point == old(self).mount_point
                &&& final(self).log_dir == old(self).log_dir
                &&& final(self).mega_host == old(self).mega_host
                &&& final(self).mega_port == old(self).mega_port
            },
    {
        if self.cache_dir.is_some() && is_dir {
            Ok(self.cache_dir.take().unwrap())
        } else {
            Err(())
        }
    }

    /// Take the log directory if it was given and `is_dir` confirms it
    /// names a directory.
    pub fn validate_log_dir(&mut self, is_dir: bool) -> (r: Result<String, ()>)
        ensures
            r is Ok <==> (old(self).log_dir is Some && is_dir),
            r is Err ==> *final(self) == *old(self),
            r matches Ok(p) ==> {
                &&& p == old(self).log_dir->0
                &&& final(self).log_dir is None
                &&& final(self).mount_point == old(self).mount_point
                &&& final(self).cache_dir == old(self).cache_dir
                &&& final(self).mega_host == old(self).mega_host
                &&& final(self).mega_port == old(self).mega_port
            },
    {
        if self.log_dir.is_some() && is_dir {
            Ok(self.log_dir.take().unwrap())
        } else {
            Err(())
        }
    }

    /// Join host and port into the server address `host:port`.  Both must
    /// have been given; the host is taken, the port is left in place.
    pub fn validate_mega_url(&mut self) -> (r: Result<String, ()>)
        requires
            old(self).mega_host is Some,
            old(self).mega_port is Some,
        ensures
            r matches Ok(u) && u@ == old(self).mega_host->0@ + ":"@ + dec_digits(
                old(self).mega_port->0 as int,
            ),
            final(self).mega_host is None,
            final(self).mount_point == old(self).mount_point,
            final(self).cache_dir == old(self).cache_dir,
            final(self).log_dir == old(self).log_dir,
            final(self).mega_port == old(self).mega_port,
    {
        let host = self.mega_host.take().unwrap();
        let port = self.mega_port.unwrap();
        let port_s = u64_to_dec(port as u64);
        let url = host.concat(":").concat(port_s.as_str());
        Ok(url)
    }
}

/// The validated configuration the engine starts from: every directory
/// confirmed, and the remote service address joined from host and port.
#[derive(Debug)]
pub struct ValidatedConfig {
    pub mount_point: String,
    pub cache_dir: String,
    pub log_dir: String,
    pub server_url: String,
}

impl ValidatedConfig {
    /// Validate a configuration whole: succeeds exactly when every
    /// directory was given and confirmed and host and port are present,
    /// and then carries the three directories and the joined server
    /// address.
    pub fn from_config(
        config: Config,
        mount_is_dir: bool,
        cache_is_dir: bool,
        log_is_dir: bool,
    ) -> (r: Result<ValidatedConfig, ()>)
        ensures
            r is Ok <==> {
                &&& config.mount_point is Some && mount_is_dir
                &&& config.cache_dir is Some && cache_is_dir
                &&& config.log_dir is Some && log_is_dir
                &&& config.mega_host is Some
                &&& config.mega_port is Some
            },
            r matches Ok(v) ==> {
                &&& v.mount_point == config.mount_point->0
                &&& v.cache_dir == config.cache_dir->0
                &&& v.log_dir == config.log_dir->0
                &&& v.server_url@ == config.mega_host->0@ + ":"@ + dec_digits(
                    config.mega_port->0 as int,
                )
            },
    {
        let mut c = config;
        let mount_point = match c.validate_mount_point(mount_is_dir) {
            Ok(p) => p,
            Err(()) => {
                return Err(());
            },
        };
        let cache_dir = match c.validate_cache_dir(cache_is_dir) {
            Ok(p) => p,
            Err(()) => {
                return Err(());
            },
        };
        let log_dir = match c.validate_log_dir(log_is_dir) {
            Ok(p) => p,
            Err(()) => {
                return Err(());
            },
        };
        if c.mega_host.is_none() || c.mega_port.is_none() {
            return Err(());
        }
        let server_url = match c.validate_mega_url() {
            Ok(u) => u,
            Err(()) => {
                return Err(());
            },
        };
        Ok(ValidatedConfig { mount_point, cache_dir, log_dir, server_url })
    }
}

} // verus!
