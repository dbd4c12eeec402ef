use vstd::prelude::*;

verus! {

/// The refusal of a capability policy.
#[derive(Debug, Clone, Copy, PartialEq, Eq)]
pub struct PermissionDenied;

/// The capability policy of one engine: it grants every network and file
/// request and never grants high-resolution time.
#[derive(Debug, Clone, Copy, PartialEq, Eq)]
pub struct ZombiePermissions;

impl ZombiePermissions {
    /// High-resolution time is never granted: a precise timer makes timing
    /// side channels easier to observe from script code.
    pub fn allow_hrtime(&mut self) -> (allowed: bool)
        ensures
            !allowed,
            *final(self) == *old(self),
    {
        false
    }

    /// Every URL may be reached.
    pub fn check_net_url(&mut self, url: &str, api_name: &str) -> (verdict: Result<
        (),
        PermissionDenied,
    >)
        ensures
            verdict is Ok,
            *final(self) == *old(self),
    {
        Ok(())
    }

    /// Every host and port may be reached.
    pub fn check_net(&mut self, host: &str, port: Option<u16>, api_name: &str) -> (verdict: Result<
        (),
        PermissionDenied,
    >)
        ensures
            verdict is Ok,
            *final(self) == *old(self),
    {
        Ok(())
    }

    /// Every path may be read; the verdict holds the path as it was given.
    pub fn check_read(&mut self, p: &str, api_name: &str) -> (verdict: Result<
        String,
        PermissionDenied,
    >)
        ensures
            verdict matches Ok(path) && path@ == p@,
            *final(self) == *old(self),
    {
        Ok(p.to_owned())
    }

    /// Every path may be written; the verdict holds the path as it was given.
    pub fn check_write(&mut self, p: &str, api_name: &str) -> (verdict: Result<
        String,
        PermissionDenied,
    >)
        ensures
            verdict matches Ok(path) && path@ == p@,
            *final(self) == *old(self),
    {
        Ok(p.to_owned())
    }

    /// Every path may be written; the verdict borrows the path that was given.
    pub fn check_write_path<'a>(&mut self, p: &'a str, api_name: &str) -> (verdict: Result<
        &'a str,
        PermissionDenied,
    >)
        ensures
            verdict matches Ok(path) && path@ == p@,
            *final(self) == *old(self),
    {
        Ok(p)
    }
}

} // verus!
