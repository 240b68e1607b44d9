use vstd::prelude::*;

use crate::env::{EnvironmentService, StandardEnvironmentService};

verus! {

/// The name of the variable that holds the bot's authentication token.
pub const DISCORD_TOKEN_KEY: &'static str = "DISCORD_TOKEN";

/// Reads the bot's secrets from a source of named values.
pub struct SecretManager<E: EnvironmentService = StandardEnvironmentService> {
    environment_service: E,
}

impl<E: EnvironmentService> SecretManager<E> {
    /// The source that the secrets are read from.
    pub closed spec fn service(&self) -> E {
        self.environment_service
    }

    /// Creates a manager that reads from `environment_service`.
    pub fn new(environment_service: E) -> (r: Self)
        ensures
            r.service() == environment_service,
    {
        Self { environment_service }
    }

    /// Gets the secret token from the variable named [`DISCORD_TOKEN_KEY`], or
    /// the source's error, naming that variable, where it holds no value.
    pub fn discord_token(&self) -> (r: Result<String, E::GetVarError>)
        ensures
            match r {
                Ok(v) => self.service().spec_var(DISCORD_TOKEN_KEY@) == Some(v@),
                Err(e) => self.service().spec_var(DISCORD_TOKEN_KEY@) is None
                    && E::spec_error_key(&e) == DISCORD_TOKEN_KEY@,
            },
    {
        self.environment_service.var(DISCORD_TOKEN_KEY)
    }
}

} // verus!
