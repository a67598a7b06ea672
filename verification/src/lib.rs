pub mod text;
pub mod money;
pub mod time;
pub mod ids;
pub mod enums;
pub mod errors;
pub mod records;
pub mod ledger;
pub mod subscriptions;
pub mod reconciliation;
pub mod json;
pub mod p2p;
pub mod tabs;
pub mod groups;
pub mod contacts;
pub mod ocr;
pub mod api_error;
pub mod api;
pub mod ocr_jobs;
pub mod users;
pub mod categories;
pub mod wallets;
pub mod listing;
pub mod uploads;
pub mod config;
pub mod requests;
