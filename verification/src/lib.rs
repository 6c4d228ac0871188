//! A verified client stack for talking to a federated repository server on
//! behalf of a user: validated identifier types, a sortable record-key
//! generator, PKCE material, proof-of-possession (DPoP) token construction,
//! identity discovery, an XRPC transport with single-retry nonce handling,
//! and the OAuth authorization-code flow that ties them together.
//!
//! Network I/O stays outside this crate: the flow types here decide what to
//! send and how to interpret what came back, and an unverified driver
//! performs the sends.

pub mod error;
pub mod strutil;
pub mod identity;
pub mod tid;
pub mod at_uri;
pub mod crypto;
pub mod clock;
pub mod encoding;
pub mod pkce;
pub mod dpop;
pub mod session;
pub mod xrpc;
pub mod blob;
pub mod repo;
pub mod discovery;
pub mod models;
pub mod oauth;

pub use error::{Error, XrpcErrorResponse};
pub use identity::{Did, Handle};
pub use tid::{Tid, TidClock};
pub use at_uri::AtUri;
pub use pkce::PkceChallenge;
pub use dpop::{DpopClaims, DpopKeyPair, JwkPublicKey};
pub use session::{BearerSession, DpopSession, Session};
pub use xrpc::{FlowDecision, FlowState, HttpResponse, NonceRetryFlow};
pub use blob::{BlobRef, CidLink};
pub use discovery::{AuthServerMetadata, DidDocument, DidService};
pub use models::{Comment, ProfileRecord, Recipe, RecipeDetail, RecipeForm, RecipeRecord};
pub use oauth::{
    AuthenticatedUser, CallbackParams, ClientMetadata, GrantKind, LoginForm, PendingAuth,
    RefreshPlan, TokenResponse,
};
pub use repo::{
    CreateRecordInput, CreateRecordOutput, DeleteRecordInput, GetRecordOutput, ListRecordsOutput,
    ListRecordsRecord, PutRecordInput, PutRecordOutput, UploadBlobOutput,
};
