//! Configuration model of the block-explorer and portal apps of a ZK stack
//! ecosystem: config records, their file locations, the docker-compose
//! services that run the explorer, and the runtime config script that the
//! explorer app loads.

pub mod text;
pub mod paths;
pub mod string_map;
pub mod docker_compose;
pub mod parsed_url;
pub mod apps;
pub mod explorer;
pub mod explorer_compose;
pub mod args;
