//! Discovery of GraphQL backend services in a Kubernetes cluster and
//! assembly of a routing coordinator from the discovered addresses.
//!
//! Discovery turns the service resources of the active namespace into a
//! routing table keyed by logical service name; assembly registers every
//! entry of that table into a fresh coordinator, failing fast on the first
//! rejected registration.

mod address;
mod address_map;
mod coordinator;
mod discovery;
mod laws;
mod namespace;
mod resource;

pub use resource::spec_label_value;
pub use resource::ServiceResource;
pub use resource::SpecResource;
pub use resource::LABEL_GRAPHQL_PROTOCOL;
pub use resource::LABEL_GRAPHQL_SERVICE;

pub use address::spec_address;
pub use address::spec_decimal;
pub use address::spec_digit_char;
pub use address::spec_udecimal;
pub use address::synthesize_address;

pub use address_map::assoc_map;
pub use address_map::lemma_assoc_map_contains;
pub use address_map::lemma_assoc_map_len;
pub use address_map::lemma_assoc_map_lookup;
pub use address_map::unique_keys;
pub use address_map::AddressMap;

pub use discovery::apply_resource;
pub use discovery::discovered_map;
pub use discovery::eligible;
pub use discovery::find_graphql_services;
pub use discovery::resource_views;
pub use discovery::spec_protocol_label;
pub use discovery::spec_service_label;

pub use coordinator::create_coordinator;
pub use coordinator::spec_supported_scheme;
pub use coordinator::Coordinator;
pub use coordinator::RegistrationError;
pub use coordinator::SimpleCoordinator;

pub use laws::lemma_discovered_address_form;
pub use laws::lemma_eligible_resource_registered;
pub use laws::lemma_ineligible_resource_ignored;
pub use laws::lemma_last_port_wins;
pub use laws::lemma_unique_service_entry;

pub use namespace::resolve_namespace;
pub use namespace::DEFAULT_NAMESPACE;
pub use namespace::NAMESPACE_PATH;
