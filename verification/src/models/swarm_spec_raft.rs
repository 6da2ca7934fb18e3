//! Raft configuration of a swarm.

use vstd::prelude::*;

verus! {

#[derive(Clone, Debug, PartialEq)]
pub struct SwarmSpecRaft {
    pub snapshot_interval: Option<i32>,
    pub keep_old_snapshots: Option<i32>,
    pub log_entries_for_slow_followers: Option<i32>,
    pub election_tick: Option<i32>,
    pub heartbeat_tick: Option<i32>,
}

impl SwarmSpecRaft {
    /// A value with every field unset.
    pub fn new() -> (r: SwarmSpecRaft)
        ensures
            r == (SwarmSpecRaft { snapshot_interval: None, keep_old_snapshots: None, log_entries_for_slow_followers: None, election_tick: None, heartbeat_tick: None }),
    {
        SwarmSpecRaft { snapshot_interval: None, keep_old_snapshots: None, log_entries_for_slow_followers: None, election_tick: None, heartbeat_tick: None }
    }

    /// Sets the `snapshot_interval` field, leaving the rest unchanged.
    pub fn set_snapshot_interval(&mut self, snapshot_interval: i32)
        ensures
            *final(self) == (SwarmSpecRaft { snapshot_interval: Some(snapshot_interval), ..*old(self) }),
    {
        self.snapshot_interval = Some(snapshot_interval);
    }

    /// The builder form of `set_snapshot_interval`.
    pub fn with_snapshot_interval(self, snapshot_interval: i32) -> (r: SwarmSpecRaft)
        ensures
            r == (SwarmSpecRaft { snapshot_interval: Some(snapshot_interval), ..self }),
    {
        SwarmSpecRaft { snapshot_interval: Some(snapshot_interval), ..self }
    }

    /// The `snapshot_interval` field, if set.
    pub fn snapshot_interval(&self) -> (r: Option<&i32>)
        ensures
            match r {
                Some(v) => self.snapshot_interval == Some(*v),
                None => self.snapshot_interval is None,
            },
    {
        match &self.snapshot_interval {
            Some(v) => Some(v),
            None => None,
        }
    }

    /// Clears the `snapshot_interval` field, leaving the rest unchanged.
    pub fn reset_snapshot_interval(&mut self)
        ensures
            *final(self) == (SwarmSpecRaft { snapshot_interval: None, ..*old(self) }),
    {
        self.snapshot_interval = None;
    }

    /// Sets the `keep_old_snapshots` field, leaving the rest unchanged.
    pub fn set_keep_old_snapshots(&mut self, keep_old_snapshots: i32)
        ensures
            *final(self) == (SwarmSpecRaft { keep_old_snapshots: Some(keep_old_snapshots), ..*old(self) }),
    {
        self.keep_old_snapshots = Some(keep_old_snapshots);
    }

    /// The builder form of `set_keep_old_snapshots`.
    pub fn with_keep_old_snapshots(self, keep_old_snapshots: i32) -> (r: SwarmSpecRaft)
        ensures
            r == (SwarmSpecRaft { keep_old_snapshots: Some(keep_old_snapshots), ..self }),
    {
        SwarmSpecRaft { keep_old_snapshots: Some(keep_old_snapshots), ..self }
    }

    /// The `keep_old_snapshots` field, if set.
    pub fn keep_old_snapshots(&self) -> (r: Option<&i32>)
        ensures
            match r {
                Some(v) => self.keep_old_snapshots == Some(*v),
                None => self.keep_old_snapshots is None,
            },
    {
        match &self.keep_old_snapshots {
            Some(v) => Some(v),
            None => None,
        }
    }

    /// Clears the `keep_old_snapshots` field, leaving the rest unchanged.
    pub fn reset_keep_old_snapshots(&mut self)
        ensures
            *final(self) == (SwarmSpecRaft { keep_old_snapshots: None, ..*old(self) }),
    {
        self.keep_old_snapshots = None;
    }

    /// Sets the `log_entries_for_slow_followers` field, leaving the rest unchanged.
    pub fn set_log_entries_for_slow_followers(&mut self, log_entries_for_slow_followers: i32)
        ensures
            *final(self) == (SwarmSpecRaft { log_entries_for_slow_followers: Some(log_entries_for_slow_followers), ..*old(self) }),
    {
        self.log_entries_for_slow_followers = Some(log_entries_for_slow_followers);
    }

    /// The builder form of `set_log_entries_for_slow_followers`.
    pub fn with_log_entries_for_slow_followers(self, log_entries_for_slow_followers: i32) -> (r: SwarmSpecRaft)
        ensures
            r == (SwarmSpecRaft { log_entries_for_slow_followers: Some(log_entries_for_slow_followers), ..self }),
    {
        SwarmSpecRaft { log_entries_for_slow_followers: Some(log_entries_for_slow_followers), ..self }
    }

    /// The `log_entries_for_slow_followers` field, if set.
    pub fn log_entries_for_slow_followers(&self) -> (r: Option<&i32>)
        ensures
            match r {
                Some(v) => self.log_entries_for_slow_followers == Some(*v),
                None => self.log_entries_for_slow_followers is None,
            },
    {
        match &self.log_entries_for_slow_followers {
            Some(v) => Some(v),
            None => None,
        }
    }

    /// Clears the `log_entries_for_slow_followers` field, leaving the rest unchanged.
    pub fn reset_log_entries_for_slow_followers(&mut self)
        ensures
            *final(self) == (SwarmSpecRaft { log_entries_for_slow_followers: None, ..*old(self) }),
    {
        self.log_entries_for_slow_followers = None;
    }

    /// Sets the `election_tick` field, leaving the rest unchanged.
    pub fn set_election_tick(&mut self, election_tick: i32)
        ensures
            *final(self) == (SwarmSpecRaft { election_tick: Some(election_tick), ..*old(self) }),
    {
        self.election_tick = Some(election_tick);
    }

    /// The builder form of `set_election_tick`.
    pub fn with_election_tick(self, election_tick: i32) -> (r: SwarmSpecRaft)
        ensures
            r == (SwarmSpecRaft { election_tick: Some(election_tick), ..self }),
    {
        SwarmSpecRaft { election_tick: Some(election_tick), ..self }
    }

    /// The `election_tick` field, if set.
    pub fn election_tick(&self) -> (r: Option<&i32>)
        ensures
            match r {
                Some(v) => self.election_tick == Some(*v),
                None => self.election_tick is None,
            },
    {
        match &self.election_tick {
            Some(v) => Some(v),
            None => None,
        }
    }

    /// Clears the `election_tick` field, leaving the rest unchanged.
    pub fn reset_election_tick(&mut self)
        ensures
            *final(self) == (SwarmSpecRaft { election_tick: None, ..*old(self) }),
    {
        self.election_tick = None;
    }

    /// Sets the `heartbeat_tick` field, leaving the rest unchanged.
    pub fn set_heartbeat_tick(&mut self, heartbeat_tick: i32)
        ensures
            *final(self) == (SwarmSpecRaft { heartbeat_tick: Some(heartbeat_tick), ..*old(self) }),
    {
        self.heartbeat_tick = Some(heartbeat_tick);
    }

    /// The builder form of `set_heartbeat_tick`.
    pub fn with_heartbeat_tick(self, heartbeat_tick: i32) -> (r: SwarmSpecRaft)
        ensures
            r == (SwarmSpecRaft { heartbeat_tick: Some(heartbeat_tick), ..self }),
    {
        SwarmSpecRaft { heartbeat_tick: Some(heartbeat_tick), ..self }
    }

    /// The `heartbeat_tick` field, if set.
    pub fn heartbeat_tick(&self) -> (r: Option<&i32>)
        ensures
            match r {
                Some(v) => self.heartbeat_tick == Some(*v),
                None => self.heartbeat_tick is None,
            },
    {
        match &self.heartbeat_tick {
            Some(v) => Some(v),
            None => None,
        }
    }

    /// Clears the `heartbeat_tick` field, leaving the rest unchanged.
    pub fn reset_heartbeat_tick(&mut self)
        ensures
            *final(self) == (SwarmSpecRaft { heartbeat_tick: None, ..*old(self) }),
    {
        self.heartbeat_tick = None;
    }
}

} // verus!
