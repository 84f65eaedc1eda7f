//! The two commands the front-end invokes against the relay: list the
//! pending notifications, and acknowledge one by its current position.

use vstd::prelude::*;
use vstd::string::StringExecFns;

use crate::estado::AppState;
use crate::estado::ErrorCola;
use crate::notificacion::NotificacionMensualidad;

verus! {

/// Returns a copy of every pending notification, in arrival order.
/// Always succeeds and never changes the queue.
pub fn obtener_notificaciones_pendientes(estado: &AppState) -> (r: Vec<
    NotificacionMensualidad,
>)
    ensures
        r@.map_values(|n: NotificacionMensualidad| n@) == estado@,
{
    estado.instantanea()
}

/// Acknowledges the notification at the given zero-based position: removes
/// it and shifts every later notification one position down. When the
/// position is at or past the end, reports the error message
/// "Índice inválido" and leaves the queue unchanged.
///
/// A position addresses the queue as it stands now. Two calls with the same
/// position, without listing in between, may therefore remove two different
/// records: after the first removal the later records have shifted down,
/// and the stale position now names another record. That is inherent to
/// addressing by position and is intended behaviour, not guarded against.
pub fn marcar_notificacion_leida(estado: &mut AppState, indice: usize) -> (r: Result<
    (),
    String,
>)
    ensures
        indice < old(estado)@.len() ==> r is Ok && final(estado)@ == old(estado)@.remove(
            indice as int,
        ),
        indice >= old(estado)@.len() ==> (r matches Err(m) && m@ == "Índice inválido"@)
            && final(estado)@ == old(estado)@,
{
    match estado.quitar_en(indice) {
        Ok(()) => Ok(()),
        Err(ErrorCola::IndiceInvalido) => Err(String::from_str("Índice inválido")),
    }
}

} // verus!
