//! The shapes in which the application service takes requests and gives
//! answers, and how they map to the domain's records.
use vstd::prelude::*;
use crate::entities::{DiscoverServerToolsRequest, DiscoverServerToolsResponse, ToolConfig, ToolConfigUpdate,
    ToolConfigUpdateRequest, ToolExecutionRequest, ToolExecutionResponse, ToolRegistrationRequest,
    ToolRegistrationResponse, ToolUninstallRequest, ToolUpdateRequest};
use crate::json::Json;

verus! {

pub struct ToolRegistrationDTO {
    pub tool_name: String,
    pub description: String,
    pub authentication: Option<Json>,
    pub tool_type: String,
    pub configuration: Option<Json>,
    pub distribution: Option<Json>,
}

pub struct ToolExecutionDTO {
    pub tool_id: String,
    pub parameters: Json,
}

pub struct ToolExecutionResponseDTO {
    pub success: bool,
    pub result: Option<Json>,
    pub error: Option<String>,
}

pub struct ToolRegistrationResponseDTO {
    pub success: bool,
    pub message: String,
    pub tool_id: Option<String>,
}

pub struct ToolUpdateDTO {
    pub tool_id: String,
    pub enabled: bool,
}

pub struct ToolUpdateResponseDTO {
    pub success: bool,
    pub message: String,
}

pub struct ToolConfigUpdateResponseDTO {
    pub success: bool,
    pub message: String,
}

pub struct ToolConfigUpdateDTO {
    pub tool_id: String,
    pub config: ToolConfig,
}

pub struct ToolUninstallDTO {
    pub tool_id: String,
}

pub struct ToolUninstallResponseDTO {
    pub success: bool,
    pub message: String,
}

pub struct DiscoverServerToolsDTO {
    pub server_id: String,
}

pub struct DiscoverServerToolsResponseDTO {
    pub success: bool,
    pub tools: Option<Vec<Json>>,
    pub error: Option<String>,
}

impl ToolRegistrationDTO {
    /// The domain request that the registration stands for.
    pub fn into_request(self) -> (r: ToolRegistrationRequest)
        ensures
            r.tool_name == self.tool_name,
            r.description == self.description,
            r.authentication == self.authentication,
            r.tool_type == self.tool_type,
            r.configuration == self.configuration,
            r.distribution == self.distribution,
    {
        ToolRegistrationRequest {
            tool_name: self.tool_name,
            description: self.description,
            authentication: self.authentication,
            tool_type: self.tool_type,
            configuration: self.configuration,
            distribution: self.distribution,
        }
    }
}

impl ToolExecutionDTO {
    /// The domain request that the execution stands for.
    pub fn into_request(self) -> (r: ToolExecutionRequest)
        ensures
            r.tool_id == self.tool_id,
            r.parameters == self.parameters,
    {
        ToolExecutionRequest { tool_id: self.tool_id, parameters: self.parameters }
    }
}

impl ToolExecutionResponseDTO {
    /// The execution answer as the application gives it.
    pub fn from_domain(r: ToolExecutionResponse) -> (d: ToolExecutionResponseDTO)
        ensures
            d.success == r.success,
            d.result == r.result,
            d.error == r.error,
    {
        ToolExecutionResponseDTO { success: r.success, result: r.result, error: r.error }
    }
}

impl ToolRegistrationResponseDTO {
    /// The registration answer as the application gives it.
    pub fn from_domain(r: ToolRegistrationResponse) -> (d: ToolRegistrationResponseDTO)
        ensures
            d.success == r.success,
            d.message == r.message,
            d.tool_id == r.tool_id,
    {
        ToolRegistrationResponseDTO { success: r.success, message: r.message, tool_id: r.tool_id }
    }
}

impl DiscoverServerToolsResponseDTO {
    /// The discovery answer as the application gives it.
    pub fn from_domain(r: DiscoverServerToolsResponse) -> (d: DiscoverServerToolsResponseDTO)
        ensures
            d.success == r.success,
            d.tools == r.tools,
            d.error == r.error,
    {
        DiscoverServerToolsResponseDTO { success: r.success, tools: r.tools, error: r.error }
    }
}

impl ToolUpdateDTO {
    /// The domain request that the update stands for.
    pub fn into_request(self) -> (r: ToolUpdateRequest)
        ensures
            r.tool_id == self.tool_id,
            r.enabled == self.enabled,
    {
        ToolUpdateRequest { tool_id: self.tool_id, enabled: self.enabled }
    }
}

impl ToolConfigUpdateDTO {
    /// The domain request that the update stands for: only the environment
    /// of the given configuration is carried over.
    pub fn into_request(self) -> (r: ToolConfigUpdateRequest)
        ensures
            r.tool_id == self.tool_id,
            r.config.env == self.config.env,
    {
        ToolConfigUpdateRequest { tool_id: self.tool_id, config: ToolConfigUpdate { env: self.config.env } }
    }
}

impl ToolUninstallDTO {
    /// The domain request that the uninstall stands for.
    pub fn into_request(self) -> (r: ToolUninstallRequest)
        ensures
            r.tool_id == self.tool_id,
    {
        ToolUninstallRequest { tool_id: self.tool_id }
    }
}

impl DiscoverServerToolsDTO {
    /// The domain request that the discovery stands for.
    pub fn into_request(self) -> (r: DiscoverServerToolsRequest)
        ensures
            r.server_id == self.server_id,
    {
        DiscoverServerToolsRequest { server_id: self.server_id }
    }
}

} // verus!
