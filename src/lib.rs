//! Token issuance and verification, bearer-token gating and server-timing
//! headers, stated over plain values and proved with Verus.

pub mod text;
pub mod auth;
pub mod bearer_auth;
pub mod server_timing;
pub mod app_state;
pub mod api;

pub use api::{echo_message, signin, SigninError};
pub use app_state::{AppConfig, AppState};
pub use auth::{AuthConfig, AuthError, AuthSigner, AuthVerifier, Claims};
pub use bearer_auth::{BearTokenError, BearerTokenProvider, BearerTokenProviderLayer, Gate};
pub use server_timing::{
    format_entry, merge_timing, HeaderEncodingError, ServerTimingLayer, ServerTimingService,
};
