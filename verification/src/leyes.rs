//! Laws of the relay, stated and proved over the queue's model.
//!
//! Each single step is pinned down by the contract of the function that
//! takes it; the proofs here state what whole runs of steps leave behind.

use vstd::prelude::*;

use crate::notificacion::ModeloNotificacion;

verus! {

/// The queue model that a run of successful ingestions leaves behind:
/// starting from `inicial`, each record of `nuevas` is appended in turn,
/// exactly as `AppState::agregar` — and so each successful
/// `recibir_notificacion_mensualidad` — ensures of one step.
pub open spec fn cola_tras_ingestas(
    inicial: Seq<ModeloNotificacion>,
    nuevas: Seq<ModeloNotificacion>,
) -> Seq<ModeloNotificacion>
    decreases nuevas.len(),
{
    if nuevas.len() == 0 {
        inicial
    } else {
        cola_tras_ingestas(inicial, nuevas.drop_last()).push(nuevas.last())
    }
}

/// Law: a run of successful ingestions appends exactly the ingested
/// records, in arrival order, after whatever was pending before — none
/// lost, none duplicated, none reordered. Starting from the empty queue,
/// listing the pending notifications afterwards therefore returns exactly
/// the ingested records. The queue's exclusive lock linearises ingestions,
/// so this is also why a queue fed by several simultaneous senders ends up
/// holding each sender's records exactly once: its length is the sum below.
pub proof fn ley_ingestas_en_orden(
    inicial: Seq<ModeloNotificacion>,
    nuevas: Seq<ModeloNotificacion>,
)
    ensures
        cola_tras_ingestas(inicial, nuevas) == inicial + nuevas,
        cola_tras_ingestas(inicial, nuevas).len() == inicial.len() + nuevas.len(),
    decreases nuevas.len(),
{
    if nuevas.len() == 0 {
        assert(cola_tras_ingestas(inicial, nuevas) =~= inicial + nuevas);
    } else {
        ley_ingestas_en_orden(inicial, nuevas.drop_last());
        assert(cola_tras_ingestas(inicial, nuevas) =~= inicial + nuevas);
    }
}

/// Law: removing the record at position `i` — what acknowledging a valid
/// position does to the queue — removes exactly that record: every earlier
/// record keeps its position, and every later record moves down by exactly
/// one.
pub proof fn ley_reconocer_desplaza(cola: Seq<ModeloNotificacion>, i: int)
    requires
        0 <= i < cola.len(),
    ensures
        cola.remove(i).len() == cola.len() - 1,
        forall|j: int| 0 <= j < i ==> cola.remove(i)[j] == cola[j],
        forall|j: int| i <= j < cola.len() - 1 ==> cola.remove(i)[j] == cola[j + 1],
{
}

} // verus!
