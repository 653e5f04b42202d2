//! A metrics endpoint for a fleet of game servers: the total number of
//! connected players, summed over every server the central directory lists.
//!
//! One scrape is one pass: the directory is asked for the fleet, every
//! listed address is normalized into a pollable endpoint, every endpoint is
//! polled concurrently under a bounded timeout, each poll contributes its
//! reported player count (or zero on any failure), and the sum is rendered
//! in the plain-text exposition format.  This crate holds the pass's logic
//! — normalization, count extraction, aggregation, rendering — leaving only
//! the HTTP traffic itself to the surrounding binary.

mod aggregate;
mod directory;
mod normalize;
mod poll;
mod render;

pub use aggregate::aggregate_players;
pub use aggregate::clamped_sum;
pub use aggregate::lemma_sum_of_nonneg;
pub use aggregate::lemma_sum_of_permutation;
pub use aggregate::sum_of;
pub use directory::server_endpoint;
pub use directory::ServerEntry;
pub use normalize::endpoint_wf;
pub use normalize::ends_in_status;
pub use normalize::http_scheme;
pub use normalize::lemma_http_default_port;
pub use normalize::lemma_status_path_shape;
pub use normalize::normalize_address;
pub use normalize::normalize_spec;
pub use normalize::rewrite_scheme;
pub use normalize::status_path;
pub use normalize::status_suffix;
pub use normalize::strip_trailing_slashes;
pub use normalize::url_seq;
pub use normalize::url_view_of;
pub use normalize::Endpoint;
pub use normalize::UrlParts;
pub use normalize::UrlView;
pub use poll::aggregate_polls;
pub use poll::body_count;
pub use poll::body_counts;
pub use poll::contribution_of;
pub use poll::lemma_malformed_body_contributes_zero;
pub use poll::player_contribution;
pub use poll::players_of;
pub use poll::poll_count;
pub use render::dec_digit;
pub use render::dec_str;
pub use render::exposition_header;
pub use render::exposition_of;
pub use render::render_metrics;
pub use render::scrape_body;
pub use render::u64_to_decimal;
