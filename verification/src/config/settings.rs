use vstd::prelude::*;

use crate::config::admin_settings::AdminSettings;
use crate::config::application_settings::ApplicationSettings;
use crate::config::database_settings::DatabaseSettings;

verus! {

/// Everything the service is configured with.
#[derive(Debug)]
pub struct Settings {
    pub application: ApplicationSettings,
    pub database: DatabaseSettings,
    pub admin: AdminSettings,
}

impl Clone for Settings {
    fn clone(&self) -> (copy: Self)
        ensures
            copy == *self,
    {
        Settings {
            application: self.application.clone(),
            database: self.database.clone(),
            admin: self.admin.clone(),
        }
    }
}

} // verus!
