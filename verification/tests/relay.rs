use mensualidad_relay::marcar_notificacion_leida;
use mensualidad_relay::obtener_notificaciones_pendientes;
use mensualidad_relay::recibir_notificacion_mensualidad;
use mensualidad_relay::AppState;
use mensualidad_relay::CuerpoRecibido;
use mensualidad_relay::NotificacionMensualidad;
use mensualidad_relay::RespuestaIngesta;
use mensualidad_relay::SaludRelay;

fn registro(mensaje: &str, monto_centavos: u64) -> NotificacionMensualidad {
    NotificacionMensualidad {
        mensaje: mensaje.to_string(),
        monto_centavos,
        fecha_vencimiento: "2024-06-01".to_string(),
        timestamp: "2024-05-01T00:00:00Z".to_string(),
    }
}

fn iguales(a: &NotificacionMensualidad, b: &NotificacionMensualidad) -> bool {
    a.mensaje == b.mensaje
        && a.monto_centavos == b.monto_centavos
        && a.fecha_vencimiento == b.fecha_vencimiento
        && a.timestamp == b.timestamp
}

#[test]
fn ingestas_en_orden() {
    let mut estado = AppState::nuevo();
    for (mensaje, monto) in [("primera", 100), ("segunda", 200), ("tercera", 300)] {
        let r = recibir_notificacion_mensualidad(
            &mut estado,
            CuerpoRecibido::Valido(registro(mensaje, monto)),
        );
        assert!(matches!(r.respuesta, RespuestaIngesta::Recibida { .. }));
    }
    let pendientes = obtener_notificaciones_pendientes(&estado);
    assert_eq!(pendientes.len(), 3);
    assert_eq!(pendientes[0].mensaje, "primera");
    assert_eq!(pendientes[1].mensaje, "segunda");
    assert_eq!(pendientes[2].mensaje, "tercera");
    assert_eq!(pendientes[0].monto_centavos, 100);
    assert_eq!(pendientes[1].monto_centavos, 200);
    assert_eq!(pendientes[2].monto_centavos, 300);
}

#[test]
fn escenario_pago_pendiente() {
    let mut estado = AppState::nuevo();
    let enviado = registro("Pago pendiente", 15000);
    let r = recibir_notificacion_mensualidad(&mut estado, CuerpoRecibido::Valido(enviado));
    match r.respuesta {
        RespuestaIngesta::Recibida { mensaje } => {
            assert_eq!(mensaje, "Notificación recibida correctamente");
        }
        RespuestaIngesta::CuerpoInvalido => panic!("un cuerpo bien formado fue rechazado"),
    }
    let emitida = r.emitir.expect("una ingesta lograda emite una copia");
    assert!(iguales(&emitida, &registro("Pago pendiente", 15000)));
    let pendientes = obtener_notificaciones_pendientes(&estado);
    assert_eq!(pendientes.len(), 1);
    assert!(iguales(&pendientes[0], &registro("Pago pendiente", 15000)));
    assert_eq!(pendientes[0].fecha_vencimiento, "2024-06-01");
    assert_eq!(pendientes[0].timestamp, "2024-05-01T00:00:00Z");
}

#[test]
fn cuerpo_malformado_no_cambia_longitud() {
    let mut estado = AppState::nuevo();

    let r = recibir_notificacion_mensualidad(&mut estado, CuerpoRecibido::Malformado);
    assert!(matches!(r.respuesta, RespuestaIngesta::CuerpoInvalido));
    assert!(r.emitir.is_none());
    assert_eq!(estado.longitud(), 0);

    recibir_notificacion_mensualidad(&mut estado, CuerpoRecibido::Valido(registro("una", 100)));
    let r = recibir_notificacion_mensualidad(&mut estado, CuerpoRecibido::Malformado);
    assert!(matches!(r.respuesta, RespuestaIngesta::CuerpoInvalido));
    assert!(r.emitir.is_none());
    assert_eq!(estado.longitud(), 1);
    assert_eq!(obtener_notificaciones_pendientes(&estado)[0].mensaje, "una");
}

#[test]
fn reconocer_quita_y_desplaza() {
    let mut estado = AppState::nuevo();
    for mensaje in ["primera", "segunda", "tercera"] {
        recibir_notificacion_mensualidad(
            &mut estado,
            CuerpoRecibido::Valido(registro(mensaje, 100)),
        );
    }
    assert!(marcar_notificacion_leida(&mut estado, 1).is_ok());
    let pendientes = obtener_notificaciones_pendientes(&estado);
    assert_eq!(pendientes.len(), 2);
    assert_eq!(pendientes[0].mensaje, "primera");
    assert_eq!(pendientes[1].mensaje, "tercera");

    // The same position again, without listing in between, now names the
    // record that shifted down: addressing is by current position.
    assert!(marcar_notificacion_leida(&mut estado, 1).is_ok());
    let pendientes = obtener_notificaciones_pendientes(&estado);
    assert_eq!(pendientes.len(), 1);
    assert_eq!(pendientes[0].mensaje, "primera");
}

#[test]
fn reconocer_indice_invalido() {
    let mut estado = AppState::nuevo();
    recibir_notificacion_mensualidad(&mut estado, CuerpoRecibido::Valido(registro("una", 100)));
    assert_eq!(
        marcar_notificacion_leida(&mut estado, 1),
        Err("Índice inválido".to_string())
    );
    assert_eq!(
        marcar_notificacion_leida(&mut estado, 5),
        Err("Índice inválido".to_string())
    );
    let pendientes = obtener_notificaciones_pendientes(&estado);
    assert_eq!(pendientes.len(), 1);
    assert_eq!(pendientes[0].mensaje, "una");
}

#[test]
fn reconocer_en_cola_vacia() {
    let mut estado = AppState::nuevo();
    assert_eq!(
        marcar_notificacion_leida(&mut estado, 0),
        Err("Índice inválido".to_string())
    );
    assert_eq!(estado.longitud(), 0);
}

#[test]
fn instantanea_es_copia() {
    let mut estado = AppState::nuevo();
    recibir_notificacion_mensualidad(&mut estado, CuerpoRecibido::Valido(registro("una", 100)));
    let antes = obtener_notificaciones_pendientes(&estado);
    marcar_notificacion_leida(&mut estado, 0).unwrap();
    assert_eq!(antes.len(), 1);
    assert_eq!(antes[0].mensaje, "una");
    assert_eq!(estado.longitud(), 0);
}

#[test]
fn clon_conserva_campos() {
    let original = registro("Pago pendiente", 15000);
    let copia = original.clone();
    assert!(iguales(&original, &copia));
}

#[test]
fn salud_del_enlace() {
    assert_eq!(
        mensualidad_relay::ingesta::salud_tras_enlace(true),
        SaludRelay::Activo
    );
    assert_eq!(
        mensualidad_relay::ingesta::salud_tras_enlace(false),
        SaludRelay::Degradado
    );
}

#[test]
fn constantes_del_protocolo() {
    assert_eq!(mensualidad_relay::ingesta::puerto_ingesta(), 3456);
    assert_eq!(
        mensualidad_relay::ingesta::ruta_ingesta(),
        "/api/notificar-mensualidad"
    );
    assert_eq!(
        mensualidad_relay::ingesta::evento_entrega(),
        "nueva-notificacion-mensualidad"
    );
}
