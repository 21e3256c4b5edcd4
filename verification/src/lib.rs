//! The engine of a wallet and identity client.
//!
//! Its core is the funding of identities: the bookkeeping of a wallet's
//! unspent outputs ([`wallet`]), the planning of a funding transaction
//! ([`funding`]), the registry of transactions that wait for a finality
//! proof ([`finality`]), the choice of the proof to register with
//! ([`asset_lock_proof`]), the tables that outlive the process
//! ([`database`]), and the state machine that registers an identity
//! ([`registration`]).
//!
//! Around it stand the decisions of the screens: which screen is shown
//! ([`app`]), how contested names are listed and voted on
//! ([`contested_names`], [`sorting`], [`dpns`], [`dpns_screen`]), which key
//! may sign what and how the keys of an identity are kept ([`helpers`],
//! [`key_info`], [`key_storage`]), and what the screens of tokens show
//! ([`pricing`], [`tokens`]).
//!
//! The few calls into other crates are gathered in [`outside`].

pub mod app;
pub mod asset_lock_proof;
pub mod chain;
pub mod contested_names;
pub mod context;
pub mod database;
pub mod derivation;
pub mod dpns;
pub mod dpns_screen;
pub mod entropy_grid;
pub mod finality;
pub mod funding;
pub mod helpers;
pub mod identity;
pub mod key_info;
pub mod key_storage;
pub mod outside;
pub mod pricing;
pub mod registration;
pub mod sorting;
pub mod text;
pub mod tokens;
pub mod views;
pub mod wallet;
pub mod wallet_seed;
