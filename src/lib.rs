//! Script-driven Kubernetes operators: the reconcile state machine that runs a
//! script per event, the fleet of controllers built from the scripts found, and
//! the manager that materializes a worker workload and its configuration bundles
//! for each `NuOperator`.

pub mod bundle;
pub mod config;
pub mod drift;
pub mod finalizer;
pub mod fleet;
pub mod manager;
pub mod mode;
pub mod model;
pub mod names;
pub mod reconcile;
pub mod text_map;
pub mod workload;
