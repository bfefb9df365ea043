//! The application under inspection and the identifiers searched for.

use vstd::prelude::*;
use crate::paths::{base_name_of, file_name_of, file_part, stem_part};

verus! {

/// An application bundle: its filesystem path and the bundle identifier the
/// metadata query produced for it — possibly empty when the query gave
/// nothing, which is tolerated rather than fatal.
pub struct Application {
    pub path: String,
    pub bundle_id: String,
}

impl Application {
    pub fn new(path: String, bundle_id: String) -> (app: Application)
        ensures
            app.path == path,
            app.bundle_id == bundle_id,
    {
        Application { path, bundle_id }
    }

    /// The glob prefixes searched for, in order: exactly the bundle
    /// identifier (even when empty) and the application's file name minus
    /// its extension. `None` when the path has no file name, which callers
    /// treat as a fatal configuration error.
    pub fn identifiers(&self) -> (r: Option<Vec<String>>)
        ensures
            match r {
                Some(ids) => {
                    &&& file_part(self.path@).len() > 0
                    &&& ids@.len() == 2
                    &&& ids@[0]@ == self.bundle_id@
                    &&& ids@[1]@ == stem_part(file_part(self.path@))
                },
                None => file_part(self.path@).len() == 0,
            },
    {
        match file_name_of(self.path.as_str()) {
            None => None,
            Some(name) => {
                let base = base_name_of(name.as_str());
                let mut ids: Vec<String> = Vec::new();
                ids.push(self.bundle_id.clone());
                ids.push(base);
                Some(ids)
            },
        }
    }
}

} // verus!
