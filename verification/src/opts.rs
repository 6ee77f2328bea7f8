//! The command line's options and the rule that tells which go together.
use vstd::prelude::*;

verus! {

/// The options as given.
#[derive(Debug, Clone, PartialEq, Eq)]
pub struct Opts {
    pub registration_file: String,
    /// Write a registration file and stop, in place of running the service.
    pub generate_registration: bool,
    pub url: Option<String>,
    pub localpart: Option<String>,
    pub config_file: String,
    pub port: Option<u16>,
    pub database_path: Option<String>,
}

/// What is wrong with a set of options.
#[derive(Debug, Clone, Copy, PartialEq, Eq, Structural)]
pub enum OptsError {
    /// A registration file is asked for without `--url`.
    MissingUrl,
    /// The service is to run without `--database-path`.
    MissingDatabasePath,
    /// The service is to run without `--port`.
    MissingPort,
    /// `--localpart` is given though the service is to run.
    LocalpartWhenRunning,
    /// `--url` is given though the service is to run.
    UrlWhenRunning,
}

impl Opts {
    /// The first fault of the options, if they have one. To write a
    /// registration file the address is needed. To run, the database path and
    /// the port are needed, and neither localpart nor address may be given.
    pub open spec fn fault(&self) -> Option<OptsError> {
        if self.generate_registration {
            if self.url is None {
                Some(OptsError::MissingUrl)
            } else {
                None
            }
        } else if self.database_path is None {
            Some(OptsError::MissingDatabasePath)
        } else if self.port is None {
            Some(OptsError::MissingPort)
        } else if self.localpart is Some {
            Some(OptsError::LocalpartWhenRunning)
        } else if self.url is Some {
            Some(OptsError::UrlWhenRunning)
        } else {
            None
        }
    }

    /// Accepts the options or names their first fault.
    pub fn validate(&self) -> (verdict: Result<(), OptsError>)
        ensures
            verdict == match self.fault() {
                Some(e) => Err::<(), OptsError>(e),
                None => Ok::<(), OptsError>(()),
            },
    {
        if self.generate_registration {
            if self.url.is_none() {
                return Err(OptsError::MissingUrl);
            }
        } else {
            if self.database_path.is_none() {
                return Err(OptsError::MissingDatabasePath);
            }
            if self.port.is_none() {
                return Err(OptsError::MissingPort);
            }
            if self.localpart.is_some() {
                return Err(OptsError::LocalpartWhenRunning);
            }
            if self.url.is_some() {
                return Err(OptsError::UrlWhenRunning);
            }
        }
        Ok(())
    }
}

impl OptsError {
    /// The words in which the fault is reported.
    pub fn message(&self) -> (text: &'static str)
        ensures
            text@ == match *self {
                OptsError::MissingUrl =>
                    "Must specify --url when generating registration file (-r)"@,
                OptsError::MissingDatabasePath => "Must specify --database-path when running"@,
                OptsError::MissingPort => "Must specify --port when running"@,
                OptsError::LocalpartWhenRunning =>
                    "--localpart option is only valid when generating registration file (-r)"@,
                OptsError::UrlWhenRunning =>
                    "--url option is only valid when generating registration file (-r)"@,
            },
    {
        match self {
            OptsError::MissingUrl => "Must specify --url when generating registration file (-r)",
            OptsError::MissingDatabasePath => "Must specify --database-path when running",
            OptsError::MissingPort => "Must specify --port when running",
            OptsError::LocalpartWhenRunning =>
                "--localpart option is only valid when generating registration file (-r)",
            OptsError::UrlWhenRunning =>
                "--url option is only valid when generating registration file (-r)",
        }
    }
}

} // verus!
