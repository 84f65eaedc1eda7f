//! In-memory relay for billing-due ("mensualidad") notifications.
//!
//! The relay accepts notification records pushed by a co-located sender over
//! a local HTTP endpoint, keeps them in an ordered in-memory queue, and makes
//! them available to a graphical front-end in two ways: a fire-and-forget
//! event carrying a copy of each newly ingested record, and pull-based
//! commands that list the pending records or acknowledge (remove) one by its
//! current position.
//!
//! This crate is the verified core: the record type, the queue and its
//! operations, the ingestion decision, and the two query commands. The
//! network listener, the lock that serialises access to the queue, and the
//! event channel to the front-end live in the unverified shell around it,
//! which hands plain values in and carries plain values out.

pub mod consultas;
pub mod estado;
pub mod ingesta;
pub mod leyes;
pub mod notificacion;

pub use consultas::marcar_notificacion_leida;
pub use consultas::obtener_notificaciones_pendientes;
pub use estado::AppState;
pub use estado::ErrorCola;
pub use ingesta::recibir_notificacion_mensualidad;
pub use ingesta::CuerpoRecibido;
pub use ingesta::RespuestaIngesta;
pub use ingesta::ResultadoIngesta;
pub use ingesta::SaludRelay;
pub use notificacion::ModeloNotificacion;
pub use notificacion::NotificacionMensualidad;
