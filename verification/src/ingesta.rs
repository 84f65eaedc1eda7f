//! The ingestion path: what the relay does with a POST body received on the
//! local endpoint, and the health of the listener itself.
//!
//! The shell owns the socket: it binds the port, reads each request body and
//! decodes it at the network edge into a [`CuerpoRecibido`], then calls
//! [`recibir_notificacion_mensualidad`] with exclusive access to the queue.
//! The result tells the shell what to answer over HTTP and whether to push a
//! copy of the new record to the front-end over the event channel.

use vstd::prelude::*;
use vstd::string::StringExecFns;

use crate::estado::AppState;
use crate::notificacion::NotificacionMensualidad;

verus! {

/// Outcome of decoding one POST body at the network edge: either a record
/// in the expected shape, or a body that failed to decode.
pub enum CuerpoRecibido {
    Valido(NotificacionMensualidad),
    Malformado,
}

/// The reply the ingestion route sends back to the external sender.
pub enum RespuestaIngesta {
    /// Success acknowledgement, carried in a 200-class response.
    Recibida { mensaje: String },
    /// The body did not decode into a record: a 400-class response, with no
    /// body promised.
    CuerpoInvalido,
}

/// What the relay hands the shell after an ingestion, in one value: the
/// HTTP reply, and the copy of the newly ingested record to push to the
/// front-end — `None` when nothing was ingested. The push is send-and-forget:
/// whether the front-end is listening has no effect on the reply.
pub struct ResultadoIngesta {
    pub respuesta: RespuestaIngesta,
    pub emitir: Option<NotificacionMensualidad>,
}

/// Ingests one decoded POST body.
///
/// A valid record is appended at the end of the queue — nothing else in the
/// queue changes — and comes back as the copy to emit, alongside the success
/// acknowledgement. A malformed body leaves the queue exactly as it was,
/// emits nothing, and is answered with a client error.
pub fn recibir_notificacion_mensualidad(estado: &mut AppState, cuerpo: CuerpoRecibido) -> (r:
    ResultadoIngesta)
    ensures
        cuerpo matches CuerpoRecibido::Valido(n) ==> {
            &&& final(estado)@ == old(estado)@.push(n@)
            &&& (r.respuesta matches RespuestaIngesta::Recibida { mensaje } && mensaje@
                == "Notificación recibida correctamente"@)
            &&& (r.emitir matches Some(c) && c@ == n@)
        },
        cuerpo is Malformado ==> final(estado)@ == old(estado)@ && r.respuesta
            is CuerpoInvalido && r.emitir is None,
{
    match cuerpo {
        CuerpoRecibido::Valido(n) => {
            let copia = n.clone();
            estado.agregar(n);
            ResultadoIngesta {
                respuesta: RespuestaIngesta::Recibida {
                    mensaje: String::from_str("Notificación recibida correctamente"),
                },
                emitir: Some(copia),
            }
        },
        CuerpoRecibido::Malformado => ResultadoIngesta {
            respuesta: RespuestaIngesta::CuerpoInvalido,
            emitir: None,
        },
    }
}

/// Health of the relay subsystem for the rest of the process run.
///
/// A failure to bind the listener's port degrades the relay to inert; it
/// must never bring the hosting application down.
#[derive(Clone, Copy, PartialEq, Eq, Structural, Debug)]
pub enum SaludRelay {
    /// The listener holds its port and ingestion is running.
    Activo,
    /// The port could not be bound; the relay stays inert for this process
    /// run while the rest of the application continues.
    Degradado,
}

/// The health the relay settles into once the shell has tried to bind the
/// listener's port: active exactly when the bind succeeded.
pub fn salud_tras_enlace(enlace_logrado: bool) -> (r: SaludRelay)
    ensures
        r is Activo <==> enlace_logrado,
{
    if enlace_logrado {
        SaludRelay::Activo
    } else {
        SaludRelay::Degradado
    }
}

/// The fixed loopback port the ingestion listener binds, chosen apart from
/// the ports the front-end itself uses.
pub fn puerto_ingesta() -> (r: u16)
    ensures
        r == 3456,
{
    3456
}

/// The one route the ingestion listener serves, as a POST route.
pub fn ruta_ingesta() -> (r: &'static str)
    ensures
        r@ == "/api/notificar-mensualidad"@,
{
    "/api/notificar-mensualidad"
}

/// The name of the event that carries each newly ingested record to the
/// front-end.
pub fn evento_entrega() -> (r: &'static str)
    ensures
        r@ == "nueva-notificacion-mensualidad"@,
{
    "nueva-notificacion-mensualidad"
}

} // verus!
