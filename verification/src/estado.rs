//! The shared queue of pending notifications: the single source of truth of
//! the relay.
//!
//! The queue is an ordered sequence; insertion order is arrival order. The
//! shell wraps one `AppState` value in an exclusive lock and hands every
//! operation exclusive access for its duration, so each operation here is
//! written and verified over the whole state it owns.

use vstd::prelude::*;

use crate::notificacion::ModeloNotificacion;
use crate::notificacion::NotificacionMensualidad;

verus! {

/// Failure of a queue operation.
#[derive(Clone, Copy, PartialEq, Eq, Debug)]
pub enum ErrorCola {
    /// The given position is at or past the end of the queue.
    IndiceInvalido,
}

/// The relay's shared state: the ordered collection of pending
/// notifications, created empty at process start, never persisted.
pub struct AppState {
    pub notificaciones: Vec<NotificacionMensualidad>,
}

impl View for AppState {
    type V = Seq<ModeloNotificacion>;

    open spec fn view(&self) -> Seq<ModeloNotificacion> {
        self.notificaciones@.map_values(|n: NotificacionMensualidad| n@)
    }
}

impl AppState {
    /// The empty queue a process starts with.
    pub fn nuevo() -> (r: Self)
        ensures
            r@ == Seq::<ModeloNotificacion>::empty(),
    {
        let r = AppState { notificaciones: Vec::new() };
        proof {
            assert(r@ =~= Seq::<ModeloNotificacion>::empty());
        }
        r
    }

    /// Appends a record at the end; never fails; the only observable effect
    /// is one more element, at the last position.
    pub fn agregar(&mut self, n: NotificacionMensualidad)
        ensures
            final(self)@ == old(self)@.push(n@),
    {
        let ghost modelo = n@;
        self.notificaciones.push(n);
        proof {
            assert(self@ =~= old(self)@.push(modelo));
        }
    }

    /// Returns a copy of the full ordered sequence of pending records;
    /// never fails; does not change the queue.
    pub fn instantanea(&self) -> (r: Vec<NotificacionMensualidad>)
        ensures
            r@.map_values(|n: NotificacionMensualidad| n@) == self@,
    {
        let mut r: Vec<NotificacionMensualidad> = Vec::new();
        let mut i: usize = 0;
        while i < self.notificaciones.len()
            invariant
                i <= self.notificaciones.len(),
                r@.len() == i,
                forall|j: int| 0 <= j < i ==> r@[j]@ == self.notificaciones@[j]@,
            decreases self.notificaciones.len() - i,
        {
            r.push(self.notificaciones[i].clone());
            i = i + 1;
        }
        proof {
            assert(r@.map_values(|n: NotificacionMensualidad| n@) =~= self@);
        }
        r
    }

    /// Removes the record at the given zero-based position, shifting every
    /// later record one position down. Fails with `IndiceInvalido`, leaving
    /// the queue unchanged, exactly when the position is at or past the end.
    pub fn quitar_en(&mut self, indice: usize) -> (r: Result<(), ErrorCola>)
        ensures
            indice < old(self)@.len() ==> r == Ok::<(), ErrorCola>(())
                && final(self)@ == old(self)@.remove(indice as int),
            indice >= old(self)@.len() ==> r == Err::<(), ErrorCola>(ErrorCola::IndiceInvalido)
                && final(self)@ == old(self)@,
    {
        if indice < self.notificaciones.len() {
            self.notificaciones.remove(indice);
            proof {
                assert(self@ =~= old(self)@.remove(indice as int));
            }
            Ok(())
        } else {
            Err(ErrorCola::IndiceInvalido)
        }
    }

    /// The number of pending records.
    pub fn longitud(&self) -> (n: usize)
        ensures
            n == self@.len(),
    {
        self.notificaciones.len()
    }
}

} // verus!
