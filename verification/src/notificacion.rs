//! The notification record: the unit of data exchanged at every boundary of
//! the relay.

use vstd::prelude::*;

verus! {

/// Mathematical model of one notification record: every field as a plain
/// spec-level value. Contracts throughout the crate speak of this model.
pub struct ModeloNotificacion {
    pub mensaje: Seq<char>,
    pub monto_centavos: u64,
    pub fecha_vencimiento: Seq<char>,
    pub timestamp: Seq<char>,
}

/// One pending billing-due notification.
///
/// Immutable after creation: the relay never changes a field in place;
/// records are only appended to the queue or removed from it wholesale.
///
/// The monetary amount is held as a whole number of cents
/// (`monto_centavos`), so that the record carries only plain values; the
/// shell converts to and from the decimal representation used on the wire.
pub struct NotificacionMensualidad {
    pub mensaje: String,
    pub monto_centavos: u64,
    pub fecha_vencimiento: String,
    pub timestamp: String,
}

impl View for NotificacionMensualidad {
    type V = ModeloNotificacion;

    open spec fn view(&self) -> ModeloNotificacion {
        ModeloNotificacion {
            mensaje: self.mensaje@,
            monto_centavos: self.monto_centavos,
            fecha_vencimiento: self.fecha_vencimiento@,
            timestamp: self.timestamp@,
        }
    }
}

impl Clone for NotificacionMensualidad {
    /// A copy with exactly the same model; used when the same record must
    /// stand both in the queue and in the event pushed to the front-end.
    fn clone(&self) -> (r: Self)
        ensures
            r@ == self@,
    {
        NotificacionMensualidad {
            mensaje: self.mensaje.clone(),
            monto_centavos: self.monto_centavos,
            fecha_vencimiento: self.fecha_vencimiento.clone(),
            timestamp: self.timestamp.clone(),
        }
    }
}

} // verus!
