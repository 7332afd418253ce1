//! A controller for distributed database clusters of one master and N
//! workers: it decides, for each cluster object, whether to provision, tear
//! down or leave alone the cluster's infrastructure, and describes that
//! infrastructure from the cluster's specification.
pub mod cluster;
pub mod crd;
pub mod jobs;
pub mod master;
pub mod reconciler;
pub mod resources;
pub mod storage;
pub mod text;
pub mod workers;
