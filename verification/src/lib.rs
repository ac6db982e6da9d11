//! Decisions behind the installation and service control of a hardware daemon.

pub mod account;
pub mod account_publication;
pub mod authorized_service;
pub mod automatic_recovery;
pub mod command;
pub mod container_bootstrap;
pub mod container_change;
pub mod container_channel;
pub mod container_deployment;
pub mod container_destination;
pub mod container_setup;
pub mod daemon_probe;
pub mod destination;
pub mod destination_inspection;
pub mod diagnostic_logs;
pub mod digest;
pub mod distrobox_import;
pub mod distrobox_service;
pub mod distrobox_unit;
pub mod files;
pub mod findings;
pub mod host_helper;
pub mod json;
pub mod lingering;
pub mod media_decoding;
pub mod media_health;
pub mod media_import;
pub mod media_import_job;
pub mod media_import_launch;
pub mod media_import_transfer;
pub mod media_import_worker;
pub mod media_ownership;
pub mod media_preparation;
pub mod media_publication;
pub mod media_removal;
pub mod media_removal_record;
pub mod media_staging;
pub mod media_validation;
pub mod module_health;
pub mod native_switch;
pub mod operation_job;
pub mod order;
pub mod ownership;
pub mod path;
pub mod process_owner;
pub mod properties;
pub mod recovery_trigger;
pub mod reservation;
pub mod runtime_health;
pub mod saved_state;
pub mod services;
pub mod steps;
pub mod switch_recovery;
pub mod switch_rollback;
pub mod switch_run;
pub mod switch_wait;
pub mod text;
