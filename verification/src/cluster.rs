//! Cluster registry requests and their error responses. The HTTP transport
//! around these types lives outside the library; what is computed here is
//! which status code and message each failure reports.

use vstd::prelude::*;

verus! {

/// A request to add or remove one node of the cluster.
#[derive(Debug, PartialEq)]
pub struct ClusterNodeRequest {
    /// Unique for each node.
    pub name: String,
    /// In 0 to 10; a larger value means higher priority.
    pub priority: u8,
    /// The node's address.
    pub address: String,
}

/// A priority lies in 0 to 10.
pub open spec fn priority_valid(p: u8) -> bool {
    p <= 10
}

impl Clone for ClusterNodeRequest {
    /// A clone is the same request.
    fn clone(&self) -> (r: ClusterNodeRequest)
        ensures
            r == *self,
    {
        ClusterNodeRequest {
            name: self.name.clone(),
            priority: self.priority,
            address: self.address.clone(),
        }
    }
}

impl ClusterNodeRequest {
    /// Build a request from its parts.
    pub fn new(name: &str, priority: u8, address: &str) -> (r: ClusterNodeRequest)
        requires
            priority_valid(priority),
        ensures
            r.name@ == name@,
            r.priority == priority,
            r.address@ == address@,
    {
        ClusterNodeRequest {
            name: String::from_str(name),
            priority,
            address: String::from_str(address),
        }
    }
}

/// A failure of one cluster registry call.
#[derive(Clone, Copy, Debug, PartialEq, Eq, Structural)]
pub enum ClusterError {
    Parse,
    Add,
    Remove,
    List,
}

impl ClusterError {
    /// The HTTP status this failure reports: expectation failed for a
    /// request that does not parse, service unavailable for the rest.
    pub fn status_code(&self) -> (r: u16)
        ensures
            r == (if *self is Parse {
                417u16
            } else {
                503u16
            }),
    {
        match self {
            ClusterError::Parse => 417,
            _ => 503,
        }
    }

    /// The message this failure reports.
    pub fn message(&self) -> (r: String)
        ensures
            (*self is Parse ==> r@ == "cannot parse json"@),
            (*self is Add ==> r@ == "cannot add node to current cluster, please retry"@),
            (*self is Remove ==> r@ == "cannot delete node in current cluster, please retry"@),
            (*self is List ==> r@ == "cannot list nodes in current cluster, please retry"@),
    {
        match self {
            ClusterError::Parse => String::from_str("cannot parse json"),
            ClusterError::Add => String::from_str(
                "cannot add node to current cluster, please retry",
            ),
            ClusterError::Remove => String::from_str(
                "cannot delete node in current cluster, please retry",
            ),
            ClusterError::List => String::from_str(
                "cannot list nodes in current cluster, please retry",
            ),
        }
    }
}

} // verus!
