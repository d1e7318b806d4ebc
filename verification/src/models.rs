//! The rows the harvester and the dashboard exchange with storage. Times
//! are milliseconds on the storage clock; temperature values are the raw
//! fixed-point words of the wire protocol, converted for display only at
//! the storage boundary.

use vstd::prelude::*;

verus! {

/// A row with a storage identity: zero until the row has been inserted.
pub trait DbObject {
    /// The row's identifier.
    spec fn spec_id(&self) -> i64;

    /// The row's identifier.
    fn get_id(&self) -> (id: i64)
        ensures
            id == self.spec_id(),
    ;

    /// The row has not been inserted yet.
    fn is_new(&self) -> (b: bool)
        ensures
            b == (self.spec_id() == 0),
    {
        self.get_id() == 0
    }

    /// The row has been inserted.
    fn is_persistent(&self) -> (b: bool)
        ensures
            b == (self.spec_id() != 0),
    {
        !self.is_new()
    }
}

/// One connect or disconnect transition, with its human-readable reason.
pub struct ConnectionStatus {
    pub id: i64,
    pub is_connect: bool,
    pub is_disconnect: bool,
    pub info: Option<String>,
    pub created_at_ms: u64,
}

impl ConnectionStatus {
    /// A blank status row stamped `now_ms`.
    pub fn new(now_ms: u64) -> (status: ConnectionStatus)
        ensures
            status.id == 0,
            !status.is_connect,
            !status.is_disconnect,
            status.info is None,
            status.created_at_ms == now_ms,
    {
        ConnectionStatus { id: 0, is_connect: false, is_disconnect: false, info: None, created_at_ms: now_ms }
    }
}

impl DbObject for ConnectionStatus {
    open spec fn spec_id(&self) -> i64 {
        self.id
    }

    fn get_id(&self) -> (id: i64)
        ensures
            id == self.spec_id(),
    {
        self.id
    }
}

/// One temperature reading: the raw word of each sensor, or no reading.
pub struct Reading {
    pub id: i64,
    pub value1: Option<u32>,
    pub value2: Option<u32>,
    pub timestamp_ms: u64,
}

impl Reading {
    /// An empty reading stamped `now_ms`.
    pub fn new(now_ms: u64) -> (reading: Reading)
        ensures
            reading.id == 0,
            reading.value1 is None,
            reading.value2 is None,
            reading.timestamp_ms == now_ms,
    {
        Reading { id: 0, value1: None, value2: None, timestamp_ms: now_ms }
    }
}

impl DbObject for Reading {
    open spec fn spec_id(&self) -> i64 {
        self.id
    }

    fn get_id(&self) -> (id: i64)
        ensures
            id == self.spec_id(),
    {
        self.id
    }
}

/// A named measurement window shown on the dashboard.
pub struct Project {
    pub id: i64,
    pub name: String,
    pub start_ms: u64,
    pub end_ms: u64,
    pub sensor1_name: String,
    pub sensor2_name: String,
    pub created_at_ms: u64,
    pub updated_at_ms: u64,
}

impl Project {
    /// A new project stamped `now_ms`.
    pub fn new(
        name: String,
        start_ms: u64,
        end_ms: u64,
        sensor1_name: String,
        sensor2_name: String,
        now_ms: u64,
    ) -> (project: Project)
        ensures
            project.id == 0,
            project.name@ == name@,
            project.start_ms == start_ms,
            project.end_ms == end_ms,
            project.sensor1_name@ == sensor1_name@,
            project.sensor2_name@ == sensor2_name@,
            project.created_at_ms == now_ms,
            project.updated_at_ms == now_ms,
    {
        Project {
            id: 0,
            name,
            start_ms,
            end_ms,
            sensor1_name,
            sensor2_name,
            created_at_ms: now_ms,
            updated_at_ms: now_ms,
        }
    }

    /// An unnamed project running twelve hours from `now_ms`.
    pub fn default(now_ms: u64) -> (project: Project)
        requires
            now_ms + 43200000 <= u64::MAX,
        ensures
            project.id == 0,
            project.name@.len() == 0,
            project.start_ms == now_ms,
            project.end_ms == now_ms + 43200000,
            project.sensor1_name@.len() == 0,
            project.sensor2_name@.len() == 0,
            project.created_at_ms == now_ms,
            project.updated_at_ms == now_ms,
    {
        Self::new(String::new(), now_ms, now_ms + 43200000, String::new(), String::new(), now_ms)
    }
}

impl DbObject for Project {
    open spec fn spec_id(&self) -> i64 {
        self.id
    }

    fn get_id(&self) -> (id: i64)
        ensures
            id == self.spec_id(),
    {
        self.id
    }
}

} // verus!
