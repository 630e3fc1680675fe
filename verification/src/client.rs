pub mod dynamo_client;
pub mod memory_client;
