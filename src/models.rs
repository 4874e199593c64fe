//! Identifiers of the provider's synthesis models.

pub mod elevanlabs_models;
