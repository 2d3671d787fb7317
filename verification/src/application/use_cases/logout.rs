//! Signing out: removing the stored credentials.
use vstd::prelude::*;

use crate::domain::errors::AuthError;
use crate::domain::repositories::credential_store::StorageKind;
use crate::domain::value_objects::api_key::ApiKey;

verus! {

/// The next thing signing out needs: store number `store` to report whether it
/// holds a credential, that store to remove its credential, or nothing more.
pub enum LogoutAction {
    Finish(Result<Vec<StorageKind>, AuthError>),
    Retrieve(AwaitRetrieval),
    Remove(AwaitRemoval),
}

/// Waiting for store number `store` (of `count`) to report its credential. The
/// first pass (`purging` false) records the kinds of the stores that hold one; the
/// second pass, which a dry run never reaches, removes them.
pub struct AwaitRetrieval {
    pub store: usize,
    pub count: usize,
    pub dry_run: bool,
    pub purging: bool,
    pub found: Vec<StorageKind>,
}

/// Waiting for store number `store` (of `count`) to remove its credential.
pub struct AwaitRemoval {
    pub store: usize,
    pub count: usize,
    pub found: Vec<StorageKind>,
}

/// There is a store after number `store` among `count`.
pub open spec fn has_next(store: usize, count: usize) -> bool {
    store + 1 < count
}

/// Finds the stores that hold a credential and, unless it is a dry run, removes
/// the credentials; reports the kinds of the stores found.
pub struct LogoutUseCase;

impl LogoutUseCase {
    pub fn new() -> Self {
        LogoutUseCase
    }

    /// Starts the first pass at store 0; with no stores there is nothing to do.
    pub fn start(&self, count: usize, dry_run: bool) -> (a: LogoutAction)
        ensures
            count == 0 ==> (a matches LogoutAction::Finish(Ok(v)) && v@.len() == 0),
            count > 0 ==> (a matches LogoutAction::Retrieve(w) && w.store == 0 && w.count == count
                && w.dry_run == dry_run && !w.purging && w.found@.len() == 0),
    {
        if count == 0 {
            LogoutAction::Finish(Ok(Vec::new()))
        } else {
            LogoutAction::Retrieve(
                AwaitRetrieval { store: 0, count, dry_run, purging: false, found: Vec::new() },
            )
        }
    }
}

impl AwaitRetrieval {
    /// First pass: a store holding a credential adds its kind to those found;
    /// after the last store a dry run reports them, a real run starts the second
    /// pass. Second pass: a store that still holds a credential is asked to remove
    /// it; after the last store the kinds found are reported. Any store error ends
    /// the sign-out with that error.
    pub fn on_retrieved(self, held: Result<Option<ApiKey>, AuthError>, kind: StorageKind) -> (a:
        LogoutAction)
        ensures
            held matches Err(e) ==> a == LogoutAction::Finish(Err(e)),
            !self.purging && (held is Ok) ==> {
                let found = if held matches Ok(Some(_)) {
                    self.found@.push(kind)
                } else {
                    self.found@
                };
                if has_next(self.store, self.count) {
                    a matches LogoutAction::Retrieve(w) && w.store == self.store + 1 && w.count
                        == self.count && w.dry_run == self.dry_run && !w.purging && w.found@
                        == found
                } else if self.dry_run {
                    a matches LogoutAction::Finish(Ok(v)) && v@ == found
                } else {
                    a matches LogoutAction::Retrieve(w) && w.store == 0 && w.count == self.count
                        && !w.dry_run && w.purging && w.found@ == found
                }
            },
            self.purging && (held matches Ok(Some(_))) ==> (a matches LogoutAction::Remove(w)
                && w.store == self.store && w.count == self.count && w.found == self.found),
            self.purging && (held matches Ok(None)) ==> if has_next(self.store, self.count) {
                a matches LogoutAction::Retrieve(w) && w.store == self.store + 1 && w.count
                    == self.count && w.purging && w.dry_run == self.dry_run && w.found == self.found
            } else {
                a == LogoutAction::Finish(Ok(self.found))
            },
            self.dry_run && !self.purging ==> !(a is Remove) && !(a matches LogoutAction::Retrieve(
                w,
            ) && w.purging),
    {
        let held = match held {
            Err(e) => {
                return LogoutAction::Finish(Err(e));
            },
            Ok(h) => h,
        };
        let more = self.count > 0 && self.store < self.count - 1;
        if !self.purging {
            let mut found = self.found;
            if held.is_some() {
                found.push(kind);
            }
            if more {
                LogoutAction::Retrieve(
                    AwaitRetrieval {
                        store: self.store + 1,
                        count: self.count,
                        dry_run: self.dry_run,
                        purging: false,
                        found,
                    },
                )
            } else if self.dry_run {
                LogoutAction::Finish(Ok(found))
            } else {
                LogoutAction::Retrieve(
                    AwaitRetrieval {
                        store: 0,
                        count: self.count,
                        dry_run: false,
                        purging: true,
                        found,
                    },
                )
            }
        } else if held.is_some() {
            LogoutAction::Remove(
                AwaitRemoval { store: self.store, count: self.count, found: self.found },
            )
        } else if more {
            LogoutAction::Retrieve(
                AwaitRetrieval {
                    store: self.store + 1,
                    count: self.count,
                    dry_run: self.dry_run,
                    purging: true,
                    found: self.found,
                },
            )
        } else {
            LogoutAction::Finish(Ok(self.found))
        }
    }
}

impl AwaitRemoval {
    /// After the removal the second pass goes on with the next store, or reports
    /// the kinds found after the last; a removal error ends the sign-out.
    pub fn on_removed(self, removed: Result<(), AuthError>) -> (a: LogoutAction)
        ensures
            removed matches Err(e) ==> a == LogoutAction::Finish(Err(e)),
            removed is Ok ==> if has_next(self.store, self.count) {
                a matches LogoutAction::Retrieve(w) && w.store == self.store + 1 && w.count
                    == self.count && w.purging && !w.dry_run && w.found == self.found
            } else {
                a == LogoutAction::Finish(Ok(self.found))
            },
    {
        match removed {
            Err(e) => LogoutAction::Finish(Err(e)),
            Ok(()) => {
                if self.count > 0 && self.store < self.count - 1 {
                    LogoutAction::Retrieve(
                        AwaitRetrieval {
                            store: self.store + 1,
                            count: self.count,
                            dry_run: false,
                            purging: true,
                            found: self.found,
                        },
                    )
                } else {
                    LogoutAction::Finish(Ok(self.found))
                }
            },
        }
    }
}

} // verus!
