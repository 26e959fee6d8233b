pub mod billing;
pub mod cold_chain;
pub mod coupon;
pub mod courier;
pub mod courier_shift;
pub mod courier_wallet;
pub mod customer;
pub mod customer_feedback;
pub mod delivery_pricing;
pub mod device_push_token;
pub mod dispatch;
pub mod error;
pub mod events;
pub mod field_service;
pub mod fleet;
pub mod float_bits;
pub mod location;
pub mod memory;
pub mod money;
pub mod notification;
pub mod order;
pub mod otp_challenge;
pub mod platform;
pub mod proof_of_delivery;
pub mod registry;
pub mod route_history;
pub mod rows;
pub mod runtime;
pub mod stored;
pub mod table;
pub mod tenant;
pub mod text;
pub mod tracking;
pub mod user;
pub mod warehouse_hub;
pub mod webhook;
