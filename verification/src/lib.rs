//! The logic of an MCP gateway: tool calls come in as JSON-RPC, and become HTTP
//! requests to the Honeycomb control plane, tasks that are waited for, and cost
//! estimates.
//!
//! The library decides and the program around it acts: it sends the requests
//! that the library makes, sleeps for as long as the library says, reads lines
//! and writes the answers.
//!
//! - [`stdio`]: what a JSON-RPC message asks for, and what is answered.
//! - [`tools`]: the tools' requests and responses, and what a call costs.
//! - [`run`]: handing a task over and waiting for its end.
//! - [`size`]: the model sizes that names give, and the classes of models.
//! - [`envelope`]: the envelope that a task travels in.
//! - [`urn`]: the URNs that name capabilities.
//! - [`client`]: requests to the control plane, and what their exchange amounts to.
//! - [`error`]: what can go wrong.
//! - [`json`], [`ids`], [`clock`], [`text`]: values, identifiers, moments and
//!   text, with what they have from `serde_json`, `uuid`, `chrono` and `std`.

pub mod client;
pub mod clock;
pub mod envelope;
pub mod error;
pub mod ids;
pub mod json;
pub mod run;
pub mod size;
pub mod stdio;
pub mod text;
pub mod tools;
pub mod urn;

pub use client::HoneycombClient;
pub use error::{GatewayError, GatewayResult};
pub use tools::{
    CapabilityInfo, DescribeClusterResponse, EstimateCostRequest, EstimateCostResponse,
    HttpMcpTools, RunSubagentRequest, RunSubagentResponse,
};
