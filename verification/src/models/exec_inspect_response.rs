//! What inspecting an exec instance reports.

use vstd::prelude::*;
use crate::models::process_config::ProcessConfig;

verus! {

#[allow(non_snake_case)]
#[derive(Clone, Debug, PartialEq)]
pub struct ExecInspectResponse {
    pub can_remove: Option<bool>,
    pub detach_keys: Option<String>,
    pub ID: Option<String>,
    pub running: Option<bool>,
    pub exit_code: Option<i32>,
    pub process_config: Option<ProcessConfig>,
    pub open_stdin: Option<bool>,
    pub open_stderr: Option<bool>,
    pub open_stdout: Option<bool>,
    pub container_id: Option<String>,
    pub pid: Option<i32>,
}

impl ExecInspectResponse {
    /// A value with every field unset.
    pub fn new() -> (r: ExecInspectResponse)
        ensures
            r == (ExecInspectResponse { can_remove: None, detach_keys: None, ID: None, running: None, exit_code: None, process_config: None, open_stdin: None, open_stderr: None, open_stdout: None, container_id: None, pid: None }),
    {
        ExecInspectResponse { can_remove: None, detach_keys: None, ID: None, running: None, exit_code: None, process_config: None, open_stdin: None, open_stderr: None, open_stdout: None, container_id: None, pid: None }
    }

    /// Sets the `can_remove` field, leaving the rest unchanged.
    pub fn set_can_remove(&mut self, can_remove: bool)
        ensures
            *final(self) == (ExecInspectResponse { can_remove: Some(can_remove), ..*old(self) }),
    {
        self.can_remove = Some(can_remove);
    }

    /// The builder form of `set_can_remove`.
    pub fn with_can_remove(self, can_remove: bool) -> (r: ExecInspectResponse)
        ensures
            r == (ExecInspectResponse { can_remove: Some(can_remove), ..self }),
    {
        ExecInspectResponse { can_remove: Some(can_remove), ..self }
    }

    /// The `can_remove` field, if set.
    pub fn can_remove(&self) -> (r: Option<&bool>)
        ensures
            match r {
                Some(v) => self.can_remove == Some(*v),
                None => self.can_remove is None,
            },
    {
        match &self.can_remove {
            Some(v) => Some(v),
            None => None,
        }
    }

    /// Clears the `can_remove` field, leaving the rest unchanged.
    pub fn reset_can_remove(&mut self)
        ensures
            *final(self) == (ExecInspectResponse { can_remove: None, ..*old(self) }),
    {
        self.can_remove = None;
    }

    /// Sets the `detach_keys` field, leaving the rest unchanged.
    pub fn set_detach_keys(&mut self, detach_keys: String)
        ensures
            *final(self) == (ExecInspectResponse { detach_keys: Some(detach_keys), ..*old(self) }),
    {
        self.detach_keys = Some(detach_keys);
    }

    /// The builder form of `set_detach_keys`.
    pub fn with_detach_keys(self, detach_keys: String) -> (r: ExecInspectResponse)
        ensures
            r == (ExecInspectResponse { detach_keys: Some(detach_keys), ..self }),
    {
        ExecInspectResponse { detach_keys: Some(detach_keys), ..self }
    }

    /// The `detach_keys` field, if set.
    pub fn detach_keys(&self) -> (r: Option<&String>)
        ensures
            match r {
                Some(v) => self.detach_keys == Some(*v),
                None => self.detach_keys is None,
            },
    {
        match &self.detach_keys {
            Some(v) => Some(v),
            None => None,
        }
    }

    /// Clears the `detach_keys` field, leaving the rest unchanged.
    pub fn reset_detach_keys(&mut self)
        ensures
            *final(self) == (ExecInspectResponse { detach_keys: None, ..*old(self) }),
    {
        self.detach_keys = None;
    }

    #[allow(non_snake_case)]
    /// Sets the `ID` field, leaving the rest unchanged.
    pub fn set_ID(&mut self, ID: String)
        ensures
            *final(self) == (ExecInspectResponse { ID: Some(ID), ..*old(self) }),
    {
        self.ID = Some(ID);
    }

    #[allow(non_snake_case)]
    /// The builder form of `set_ID`.
    pub fn with_ID(self, ID: String) -> (r: ExecInspectResponse)
        ensures
            r == (ExecInspectResponse { ID: Some(ID), ..self }),
    {
        ExecInspectResponse { ID: Some(ID), ..self }
    }

    #[allow(non_snake_case)]
    /// The `ID` field, if set.
    pub fn ID(&self) -> (r: Option<&String>)
        ensures
            match r {
                Some(v) => self.ID == Some(*v),
                None => self.ID is None,
            },
    {
        match &self.ID {
            Some(v) => Some(v),
            None => None,
        }
    }

    #[allow(non_snake_case)]
    /// Clears the `ID` field, leaving the rest unchanged.
    pub fn reset_ID(&mut self)
        ensures
            *final(self) == (ExecInspectResponse { ID: None, ..*old(self) }),
    {
        self.ID = None;
    }

    /// Sets the `running` field, leaving the rest unchanged.
    pub fn set_running(&mut self, running: bool)
        ensures
            *final(self) == (ExecInspectResponse { running: Some(running), ..*old(self) }),
    {
        self.running = Some(running);
    }

    /// The builder form of `set_running`.
    pub fn with_running(self, running: bool) -> (r: ExecInspectResponse)
        ensures
            r == (ExecInspectResponse { running: Some(running), ..self }),
    {
        ExecInspectResponse { running: Some(running), ..self }
    }

    /// The `running` field, if set.
    pub fn running(&self) -> (r: Option<&bool>)
        ensures
            match r {
                Some(v) => self.running == Some(*v),
                None => self.running is None,
            },
    {
        match &self.running {
            Some(v) => Some(v),
            None => None,
        }
    }

    /// Clears the `running` field, leaving the rest unchanged.
    pub fn reset_running(&mut self)
        ensures
            *final(self) == (ExecInspectResponse { running: None, ..*old(self) }),
    {
        self.running = None;
    }

    /// Sets the `exit_code` field, leaving the rest unchanged.
    pub fn set_exit_code(&mut self, exit_code: i32)
        ensures
            *final(self) == (ExecInspectResponse { exit_code: Some(exit_code), ..*old(self) }),
    {
        self.exit_code = Some(exit_code);
    }

    /// The builder form of `set_exit_code`.
    pub fn with_exit_code(self, exit_code: i32) -> (r: ExecInspectResponse)
        ensures
            r == (ExecInspectResponse { exit_code: Some(exit_code), ..self }),
    {
        ExecInspectResponse { exit_code: Some(exit_code), ..self }
    }

    /// The `exit_code` field, if set.
    pub fn exit_code(&self) -> (r: Option<&i32>)
        ensures
            match r {
                Some(v) => self.exit_code == Some(*v),
                None => self.exit_code is None,
            },
    {
        match &self.exit_code {
            Some(v) => Some(v),
            None => None,
        }
    }

    /// Clears the `exit_code` field, leaving the rest unchanged.
    pub fn reset_exit_code(&mut self)
        ensures
            *final(self) == (ExecInspectResponse { exit_code: None, ..*old(self) }),
    {
        self.exit_code = None;
    }

    /// Sets the `process_config` field, leaving the rest unchanged.
    pub fn set_process_config(&mut self, process_config: ProcessConfig)
        ensures
            *final(self) == (ExecInspectResponse { process_config: Some(process_config), ..*old(self) }),
    {
        self.process_config = Some(process_config);
    }

    /// The builder form of `set_process_config`.
    pub fn with_process_config(self, process_config: ProcessConfig) -> (r: ExecInspectResponse)
        ensures
            r == (ExecInspectResponse { process_config: Some(process_config), ..self }),
    {
        ExecInspectResponse { process_config: Some(process_config), ..self }
    }

    /// The `process_config` field, if set.
    pub fn process_config(&self) -> (r: Option<&ProcessConfig>)
        ensures
            match r {
                Some(v) => self.process_config == Some(*v),
                None => self.process_config is None,
            },
    {
        match &self.process_config {
            Some(v) => Some(v),
            None => None,
        }
    }

    /// Clears the `process_config` field, leaving the rest unchanged.
    pub fn reset_process_config(&mut self)
        ensures
            *final(self) == (ExecInspectResponse { process_config: None, ..*old(self) }),
    {
        self.process_config = None;
    }

    /// Sets the `open_stdin` field, leaving the rest unchanged.
    pub fn set_open_stdin(&mut self, open_stdin: bool)
        ensures
            *final(self) == (ExecInspectResponse { open_stdin: Some(open_stdin), ..*old(self) }),
    {
        self.open_stdin = Some(open_stdin);
    }

    /// The builder form of `set_open_stdin`.
    pub fn with_open_stdin(self, open_stdin: bool) -> (r: ExecInspectResponse)
        ensures
            r == (ExecInspectResponse { open_stdin: Some(open_stdin), ..self }),
    {
        ExecInspectResponse { open_stdin: Some(open_stdin), ..self }
    }

    /// The `open_stdin` field, if set.
    pub fn open_stdin(&self) -> (r: Option<&bool>)
        ensures
            match r {
                Some(v) => self.open_stdin == Some(*v),
                None => self.open_stdin is None,
            },
    {
        match &self.open_stdin {
            Some(v) => Some(v),
            None => None,
        }
    }

    /// Clears the `open_stdin` field, leaving the rest unchanged.
    pub fn reset_open_stdin(&mut self)
        ensures
            *final(self) == (ExecInspectResponse { open_stdin: None, ..*old(self) }),
    {
        self.open_stdin = None;
    }

    /// Sets the `open_stderr` field, leaving the rest unchanged.
    pub fn set_open_stderr(&mut self, open_stderr: bool)
        ensures
            *final(self) == (ExecInspectResponse { open_stderr: Some(open_stderr), ..*old(self) }),
    {
        self.open_stderr = Some(open_stderr);
    }

    /// The builder form of `set_open_stderr`.
    pub fn with_open_stderr(self, open_stderr: bool) -> (r: ExecInspectResponse)
        ensures
            r == (ExecInspectResponse { open_stderr: Some(open_stderr), ..self }),
    {
        ExecInspectResponse { open_stderr: Some(open_stderr), ..self }
    }

    /// The `open_stderr` field, if set.
    pub fn open_stderr(&self) -> (r: Option<&bool>)
        ensures
            match r {
                Some(v) => self.open_stderr == Some(*v),
                None => self.open_stderr is None,
            },
    {
        match &self.open_stderr {
            Some(v) => Some(v),
            None => None,
        }
    }

    /// Clears the `open_stderr` field, leaving the rest unchanged.
    pub fn reset_open_stderr(&mut self)
        ensures
            *final(self) == (ExecInspectResponse { open_stderr: None, ..*old(self) }),
    {
        self.open_stderr = None;
    }

    /// Sets the `open_stdout` field, leaving the rest unchanged.
    pub fn set_open_stdout(&mut self, open_stdout: bool)
        ensures
            *final(self) == (ExecInspectResponse { open_stdout: Some(open_stdout), ..*old(self) }),
    {
        self.open_stdout = Some(open_stdout);
    }

    /// The builder form of `set_open_stdout`.
    pub fn with_open_stdout(self, open_stdout: bool) -> (r: ExecInspectResponse)
        ensures
            r == (ExecInspectResponse { open_stdout: Some(open_stdout), ..self }),
    {
        ExecInspectResponse { open_stdout: Some(open_stdout), ..self }
    }

    /// The `open_stdout` field, if set.
    pub fn open_stdout(&self) -> (r: Option<&bool>)
        ensures
            match r {
                Some(v) => self.open_stdout == Some(*v),
                None => self.open_stdout is None,
            },
    {
        match &self.open_stdout {
            Some(v) => Some(v),
            None => None,
        }
    }

    /// Clears the `open_stdout` field, leaving the rest unchanged.
    pub fn reset_open_stdout(&mut self)
        ensures
            *final(self) == (ExecInspectResponse { open_stdout: None, ..*old(self) }),
    {
        self.open_stdout = None;
    }

    /// Sets the `container_id` field, leaving the rest unchanged.
    pub fn set_container_id(&mut self, container_id: String)
        ensures
            *final(self) == (ExecInspectResponse { container_id: Some(container_id), ..*old(self) }),
    {
        self.container_id = Some(container_id);
    }

    /// The builder form of `set_container_id`.
    pub fn with_container_id(self, container_id: String) -> (r: ExecInspectResponse)
        ensures
            r == (ExecInspectResponse { container_id: Some(container_id), ..self }),
    {
        ExecInspectResponse { container_id: Some(container_id), ..self }
    }

    /// The `container_id` field, if set.
    pub fn container_id(&self) -> (r: Option<&String>)
        ensures
            match r {
                Some(v) => self.container_id == Some(*v),
                None => self.container_id is None,
            },
    {
        match &self.container_id {
            Some(v) => Some(v),
            None => None,
        }
    }

    /// Clears the `container_id` field, leaving the rest unchanged.
    pub fn reset_container_id(&mut self)
        ensures
            *final(self) == (ExecInspectResponse { container_id: None, ..*old(self) }),
    {
        self.container_id = None;
    }

    /// Sets the `pid` field, leaving the rest unchanged.
    pub fn set_pid(&mut self, pid: i32)
        ensures
            *final(self) == (ExecInspectResponse { pid: Some(pid), ..*old(self) }),
    {
        self.pid = Some(pid);
    }

    /// The builder form of `set_pid`.
    pub fn with_pid(self, pid: i32) -> (r: ExecInspectResponse)
        ensures
            r == (ExecInspectResponse { pid: Some(pid), ..self }),
    {
        ExecInspectResponse { pid: Some(pid), ..self }
    }

    /// The `pid` field, if set.
    pub fn pid(&self) -> (r: Option<&i32>)
        ensures
            match r {
                Some(v) => self.pid == Some(*v),
                None => self.pid is None,
            },
    {
        match &self.pid {
            Some(v) => Some(v),
            None => None,
        }
    }

    /// Clears the `pid` field, leaving the rest unchanged.
    pub fn reset_pid(&mut self)
        ensures
            *final(self) == (ExecInspectResponse { pid: None, ..*old(self) }),
    {
        self.pid = None;
    }
}

} // verus!
