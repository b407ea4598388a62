//! Bringing up an enclave, stage by stage.
//!
//! Three things happen outside the library, in this order: the enclave is
//! launched, the bridge configuration file is written, and the host's proxy
//! is restarted. Each stage here says what is to be done and takes what came
//! of it. A failure ends the bring-up with the error of its stage; the stages
//! after it are never reached. Nothing is undone on failure: an enclave that
//! was launched before a later stage failed keeps running, and no handle for
//! it exists.

use vstd::prelude::*;
use vstd::string::*;
use crate::bridge::{bridge_config, bridge_config_path, bridge_config_text, bridge_path};
use crate::config::Enclave;
use crate::defs::{PROXY_SERVICE, SERVICE_MANAGER, SERVICE_RESTART};
use crate::enclave::{enclave_view, P11neEnclave};
use crate::error::Error;
use crate::ne::{ids_fit, EnclaveRunInfo, LaunchReport, LaunchRequest};

verus! {

/// A file to write: created if missing, emptied if not, then filled.
#[derive(Debug, Clone, PartialEq, Eq)]
pub struct BridgeFile {
    /// Where the file lies.
    pub path: String,
    /// What it holds.
    pub contents: String,
}

/// A service manager invocation.
#[derive(Debug, Clone, Copy, PartialEq, Eq)]
pub struct ServiceCommand {
    /// The program to run.
    pub program: &'static str,
    /// What it is to do with the unit.
    pub verb: &'static str,
    /// The service unit.
    pub unit: &'static str,
}

/// First stage: the enclave is to be launched.
#[derive(Debug)]
pub struct Launch {
    config: Enclave,
}

/// Second stage: the enclave runs, the bridge file is to be written.
#[derive(Debug)]
pub struct BridgeSetup {
    config: Enclave,
    info: EnclaveRunInfo,
}

/// Third stage: the bridge file is written, the proxy is to be restarted.
#[derive(Debug)]
pub struct ProxyRestart {
    config: Enclave,
    info: EnclaveRunInfo,
}

/// Whether a service manager that exited with `code` did what it was asked.
pub open spec fn exit_is_success(code: Option<i32>) -> bool {
    code == Some(0i32)
}

impl Launch {
    /// The settings of the bring-up.
    pub closed spec fn config(&self) -> Enclave {
        self.config
    }

    pub(crate) fn new(config: Enclave) -> (launch: Self)
        ensures
            launch.config() == config,
    {
        Launch { config }
    }

    /// What to ask of the launcher.
    pub fn request(&self) -> (request: LaunchRequest)
        ensures
            request.image_path@ == self.config().spec_image_path(),
            request.cpu_count == self.config().cpu_count,
            request.memory_mib == self.config().memory_mib,
    {
        LaunchRequest {
            image_path: self.config.resolved_image_path(),
            cpu_count: self.config.cpu_count,
            memory_mib: self.config.memory_mib,
        }
    }

    /// Takes the launcher's answer as the launcher gives it.
    ///
    /// A refusal ends the bring-up as a launch error. A report whose
    /// identifiers both fit leads to the next stage, for the enclave with
    /// just these identifiers. A report with an identifier that does not fit
    /// ends the bring-up as an identifier error that carries both as they were
    /// reported; the enclave it speaks of keeps running.
    pub fn reported(self, outcome: Result<LaunchReport, String>) -> (next: Result<
        BridgeSetup,
        Error,
    >)
        ensures
            match outcome {
                Ok(report) => if ids_fit(report.enclave_cid, report.process_id) {
                    next matches Ok(stage) && stage.config() == self.config()
                        && stage.info().enclave_cid == report.enclave_cid
                        && stage.info().process_id == report.process_id
                } else {
                    next == Err::<BridgeSetup, Error>(
                        Error::EnclaveIdError {
                            enclave_cid: report.enclave_cid,
                            process_id: report.process_id,
                        },
                    )
                },
                Err(cause) => next == Err::<BridgeSetup, Error>(Error::NitroCliError(cause)),
            },
    {
        match outcome {
            Ok(report) => match EnclaveRunInfo::from_ids(report.enclave_cid, report.process_id) {
                Some(info) => self.launched(Ok(info)),
                None => Err(
                    Error::EnclaveIdError {
                        enclave_cid: report.enclave_cid,
                        process_id: report.process_id,
                    },
                ),
            },
            Err(cause) => self.launched(Err(cause)),
        }
    }

    /// Takes the launcher's answer, with the identifiers in the width of
    /// their kind.
    ///
    /// A refusal ends the bring-up as a launch error. Otherwise the next stage
    /// is for the enclave that was reported.
    pub fn launched(self, outcome: Result<EnclaveRunInfo, String>) -> (next: Result<
        BridgeSetup,
        Error,
    >)
        ensures
            match outcome {
                Ok(info) => next matches Ok(stage) && stage.config() == self.config()
                    && stage.info() == info,
                Err(cause) => next == Err::<BridgeSetup, Error>(Error::NitroCliError(cause)),
            },
    {
        match outcome {
            Ok(info) => Ok(BridgeSetup { config: self.config, info }),
            Err(cause) => Err(Error::NitroCliError(cause)),
        }
    }
}

impl BridgeSetup {
    /// The settings of the bring-up.
    pub closed spec fn config(&self) -> Enclave {
        self.config
    }

    /// The enclave that was launched.
    pub closed spec fn info(&self) -> EnclaveRunInfo {
        self.info
    }

    /// The file to write. It names the enclave's channel, the same that the
    /// handle will call, and the bridge port in effect.
    pub fn file(&self) -> (file: BridgeFile)
        ensures
            file.path@ == bridge_config_path(),
            file.contents@ == bridge_config_text(
                self.info().enclave_cid as nat,
                self.config().spec_p11kit_port() as nat,
            ),
    {
        BridgeFile {
            path: bridge_path(),
            contents: bridge_config(
                self.info.enclave_cid as u64,
                self.config.resolved_p11kit_port(),
            ),
        }
    }

    /// Takes what came of writing the file.
    ///
    /// A failure ends the bring-up as a bridge setup error.
    pub fn written(self, outcome: Result<(), String>) -> (next: Result<ProxyRestart, Error>)
        ensures
            match outcome {
                Ok(_) => next matches Ok(stage) && stage.config() == self.config()
                    && stage.info() == self.info(),
                Err(cause) => next == Err::<ProxyRestart, Error>(Error::P11KitSetupError(cause)),
            },
    {
        match outcome {
            Ok(_) => Ok(ProxyRestart { config: self.config, info: self.info }),
            Err(cause) => Err(Error::P11KitSetupError(cause)),
        }
    }
}

impl ProxyRestart {
    /// The settings of the bring-up.
    pub closed spec fn config(&self) -> Enclave {
        self.config
    }

    /// The enclave that was launched.
    pub closed spec fn info(&self) -> EnclaveRunInfo {
        self.info
    }

    /// The command that restarts the proxy.
    pub fn command(&self) -> (command: ServiceCommand)
        ensures
            command.program@ == SERVICE_MANAGER@,
            command.verb@ == SERVICE_RESTART@,
            command.unit@ == PROXY_SERVICE@,
    {
        ServiceCommand { program: SERVICE_MANAGER, verb: SERVICE_RESTART, unit: PROXY_SERVICE }
    }

    /// Takes what came of the restart: the exit code of the service manager
    /// (none if a signal ended it), or why it could not be run.
    ///
    /// Exit code zero completes the bring-up and gives the handle. Any other
    /// exit is a proxy error that carries the code; a service manager that
    /// could not be run is an error of its own.
    pub fn restarted(self, outcome: Result<Option<i32>, String>) -> (done: Result<
        P11neEnclave,
        Error,
    >)
        ensures
            match outcome {
                Ok(code) => if exit_is_success(code) {
                    done matches Ok(enclave) && enclave@ == enclave_view(
                        self.config(),
                        self.info(),
                    ) && enclave@.cid == self.info().enclave_cid && enclave@.pid
                        == self.info().process_id
                } else {
                    done == Err::<P11neEnclave, Error>(Error::VsockProxyError(code))
                },
                Err(cause) => done == Err::<P11neEnclave, Error>(Error::SystemdExecError(cause)),
            },
    {
        match outcome {
            Ok(code) => {
                let success = match code {
                    Some(value) => value == 0,
                    None => false,
                };
                if success {
                    Ok(P11neEnclave::assemble(&self.config, &self.info))
                } else {
                    Err(Error::VsockProxyError(code))
                }
            },
            Err(cause) => Err(Error::SystemdExecError(cause)),
        }
    }
}

} // verus!
