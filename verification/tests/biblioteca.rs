use utiles::tiempo::{
    ahora_log, fecha_hora_a_texto, fecha_hora_desde_texto, fecha_str_ddmmmaa, hora_hhmm,
    hora_hhmm_ampm, Antiguedad, Fecha, FechaHora, FormatosAntiguedad, FormatosFecha,
    FormatosFechaHora, FormatosHora, Hora,
};
use utiles::utilidades::{version_superior, versionado_a_segmentos};
use utiles::ws::{
    cabeceras_peticion, clasificar_error_envio, cuerpo_a_texto, destino, es_exito,
    msg_error_envio, msg_error_formato, msg_error_protocolo, msg_error_utf8,
    resolver_respuesta_cruda, resolver_respuesta_error, resolver_respuesta_exito,
    DecodificacionEnvoltura, RespuestaCruda, WSRespuesta, MSG_ERROR_CNX,
};

#[derive(Debug, PartialEq)]
struct Punto {
    x: i64,
}

#[test]
fn fecha_diccionario() {
    let fecha = Fecha { anio: 2015, mes: 7, dia: 22 };
    println!("{:?} {}", fecha, fecha.to_string_ddmmmaa());
    assert_eq!(fecha.to_string_ddmmmaa(), "22 Jul 2015");
}

#[test]
fn destino_concatena_sin_normalizar() {
    assert_eq!(destino("http://servidor", "metodo"), "http://servidor/metodo");
    assert_eq!(destino("a//", "b/c"), "a///b/c");
    assert_eq!(destino("", ""), "/");
}

#[test]
fn cabeceras_llevan_content_type_y_las_del_llamador() {
    let propias = vec![
        ("X-Token".to_string(), "t".to_string()),
        ("Content-Type".to_string(), "text/plain".to_string()),
    ];
    let todas = cabeceras_peticion(propias);
    assert_eq!(todas.len(), 3);
    assert_eq!(todas[0].0, "Content-Type");
    assert_eq!(todas[0].1, "application/json; charset=UTF-8");
    assert_eq!(todas[1], ("X-Token".to_string(), "t".to_string()));
    // A caller-supplied Content-Type stands after the fixed one, so under a
    // transport where the last write wins, the caller's value wins.
    assert_eq!(todas[2], ("Content-Type".to_string(), "text/plain".to_string()));
}

#[test]
fn respuesta_exitosa_devuelve_el_contenido() {
    let envoltura = WSRespuesta { ok: true, error: String::new(), contenido: Punto { x: 1 } };
    let r = resolver_respuesta_exito("metodo", DecodificacionEnvoltura::Correcta(envoltura));
    assert_eq!(r.unwrap(), Punto { x: 1 });
}

#[test]
fn respuesta_404_devuelve_el_error_del_servidor() {
    let envoltura = WSRespuesta {
        ok: false,
        error: "not found".to_string(),
        contenido: String::new(),
    };
    let mensaje = resolver_respuesta_error(
        404,
        "Not Found",
        "metodo",
        DecodificacionEnvoltura::Correcta(envoltura),
    );
    assert_eq!(mensaje, "not found");
}

#[test]
fn respuesta_404_sin_envoltura_da_mensaje_de_protocolo() {
    let mensaje = resolver_respuesta_error(
        404,
        "Not Found",
        "metodo",
        DecodificacionEnvoltura::Fallida("expected value at line 1".to_string()),
    );
    assert_eq!(mensaje, "Respuesta HTTP 404 Not Found en \"metodo\"");
}

#[test]
fn cuerpo_malformado_da_error_de_formato_con_el_metodo() {
    let r: Result<Punto, String> = resolver_respuesta_exito(
        "metodo",
        DecodificacionEnvoltura::Fallida("expected value at line 1 column 1".to_string()),
    );
    let mensaje = r.unwrap_err();
    assert!(mensaje.contains("metodo"));
    assert_eq!(
        mensaje,
        "Formato del cuerpo WS recibido incorrecto en \"metodo\", expected value at line 1 column 1"
    );
}

#[test]
fn fallo_de_conexion_da_mensaje_fijo() {
    let a = clasificar_error_envio("metodo", true, "Connection refused (os error 111)");
    let b = clasificar_error_envio("metodo", true, "otro texto cualquiera");
    assert_eq!(a, MSG_ERROR_CNX);
    assert_eq!(b, MSG_ERROR_CNX);
}

#[test]
fn fallo_de_envio_no_io_conserva_el_texto() {
    let m = clasificar_error_envio("metodo", false, "url malformada");
    assert_eq!(m, "Error en \"metodo\": url malformada");
    assert_eq!(msg_error_envio("m", "e"), "Error en \"m\": e");
}

#[test]
fn respuesta_cruda_2xx_vuelve_identica() {
    let respuesta = RespuestaCruda {
        codigo: 204,
        razon: "No Content".to_string(),
        cuerpo: vec![1, 2, 3],
    };
    let r = resolver_respuesta_cruda("http://u", respuesta).unwrap();
    assert_eq!(r.codigo, 204);
    assert_eq!(r.razon, "No Content");
    assert_eq!(r.cuerpo, vec![1, 2, 3]);
}

#[test]
fn respuesta_cruda_no_2xx_da_mensaje_de_protocolo() {
    let respuesta = RespuestaCruda {
        codigo: 500,
        razon: "Internal Server Error".to_string(),
        cuerpo: Vec::new(),
    };
    let e = resolver_respuesta_cruda("http://u", respuesta).unwrap_err();
    assert_eq!(e, "Respuesta HTTP 500 Internal Server Error en \"http://u\"");
}

#[test]
fn estado_de_exito_es_el_rango_2xx() {
    assert!(es_exito(200));
    assert!(es_exito(299));
    assert!(!es_exito(199));
    assert!(!es_exito(300));
    assert!(!es_exito(404));
}

#[test]
fn cuerpo_utf8_valido_se_decodifica() {
    let cuerpo: Vec<u8> = "hola \u{f3}".as_bytes().to_vec();
    assert_eq!(cuerpo_a_texto("metodo", &cuerpo).unwrap(), "hola \u{f3}");
}

#[test]
fn cuerpo_no_utf8_da_mensaje_de_codificacion() {
    let cuerpo: Vec<u8> = vec![0xf0, 0x28, 0x8c, 0x28];
    let e = cuerpo_a_texto("metodo", &cuerpo).unwrap_err();
    assert!(e.starts_with("Respuesta \"metodo\" no esta en UTF-8, "));
}

#[test]
fn mensajes_exactos() {
    assert_eq!(
        msg_error_utf8("m", "bad byte"),
        "Respuesta \"m\" no esta en UTF-8, bad byte"
    );
    assert_eq!(
        msg_error_protocolo(401, "Unauthorized", "m"),
        "Respuesta HTTP 401 Unauthorized en \"m\""
    );
    assert_eq!(
        msg_error_formato("m", "e"),
        "Formato del cuerpo WS recibido incorrecto en \"m\", e"
    );
}

#[test]
fn segmentos_de_version() {
    let s = versionado_a_segmentos("1.2.3");
    assert_eq!((s.a, s.b, s.c), (1, 2, 3));
    let s = versionado_a_segmentos("7");
    assert_eq!((s.a, s.b, s.c), (7, 0, 0));
    let s = versionado_a_segmentos("1.2.3.4");
    assert_eq!((s.a, s.b, s.c), (1, 2, 3));
    let s = versionado_a_segmentos("abc.2.+9");
    assert_eq!((s.a, s.b, s.c), (0, 2, 9));
    let s = versionado_a_segmentos("4294967295.4294967296.-1");
    assert_eq!((s.a, s.b, s.c), (4294967295, 0, 0));
    let s = versionado_a_segmentos("");
    assert_eq!((s.a, s.b, s.c), (0, 0, 0));
}

#[test]
fn comparacion_de_versiones() {
    assert!(version_superior("1.2.4", "1.2.3"));
    assert!(version_superior("1.3.0", "1.2.9"));
    assert!(version_superior("2.0.0", "1.9.9"));
    assert!(version_superior("1.10.0", "1.9.0"));
    assert!(!version_superior("1.2.3", "1.2.3"));
    assert!(!version_superior("1.2.3", "1.2.4"));
    assert!(!version_superior("", "1.0.0"));
    assert!(!version_superior("1.0.0", ""));
    // Equal numeric segments under different texts are not "above".
    assert!(!version_superior("1.2.3.9", "1.2.3.8"));
}

#[test]
fn formato_de_fechas() {
    assert_eq!(fecha_str_ddmmmaa(&"2015-07-22".to_string()), "22 Jul 2015");
    assert_eq!(fecha_str_ddmmmaa(&"2024-01-05".to_string()), "5 Ene 2024");
    assert_eq!(fecha_str_ddmmmaa(&"".to_string()), "-------");
    assert_eq!(fecha_str_ddmmmaa(&"no es fecha".to_string()), "-------");
}

#[test]
fn formato_de_horas() {
    assert_eq!(hora_hhmm(&"13:05:59".to_string()), "13:05");
    assert_eq!(hora_hhmm(&"x".to_string()), "---");
    assert_eq!(hora_hhmm_ampm(&"13:05:00".to_string()), "1:05 PM");
    assert_eq!(hora_hhmm_ampm(&"00:30:00".to_string()), "12:30 AM");
    assert_eq!(hora_hhmm_ampm(&"12:00:00".to_string()), "12:00 PM");
    let h = Hora { hora: 9, minuto: 5, segundo: 7 };
    assert_eq!(h.to_string_hhmm(), "09:05");
    assert_eq!(h.to_string_hhmmss(), "09:05:07");
}

#[test]
fn formato_de_fecha_hora() {
    let fh = FechaHora {
        fecha: Fecha { anio: 2015, mes: 7, dia: 22 },
        hora: Hora { hora: 13, minuto: 5, segundo: 9 },
    };
    assert_eq!(fh.to_string_ddmmmaa_hhmm(), "22 Jul 2015  13:05");
    assert_eq!(fh.to_string_ddmmmaa_hhmmss(), "22 Jul 2015  13:05:09");
    assert_eq!(fecha_hora_a_texto(&fh), "2015-07-22 13:05:09");
}

#[test]
fn lectura_de_fecha_hora() {
    let fh = fecha_hora_desde_texto("2015-07-22 13:05:09").unwrap();
    assert_eq!(
        (fh.fecha.anio, fh.fecha.mes, fh.fecha.dia, fh.hora.hora, fh.hora.minuto, fh.hora.segundo),
        (2015, 7, 22, 13, 5, 9)
    );
    // Writing the instant back gives the text it was read from.
    assert_eq!(fecha_hora_a_texto(&fh), "2015-07-22 13:05:09");
    let e = fecha_hora_desde_texto("2015-07-22").unwrap_err();
    assert!(e.starts_with("Formato DateTime incorrecto: "));
}

#[test]
fn antiguedad_mayor_unidad() {
    assert_eq!(Antiguedad { milisegundos: 2 * 86_400_000 }.d_h_m_uno(), "2 d");
    assert_eq!(Antiguedad { milisegundos: 3 * 3_600_000 }.d_h_m_uno(), "3 h");
    assert_eq!(Antiguedad { milisegundos: 5 * 60_000 }.d_h_m_uno(), "5 m");
    assert_eq!(Antiguedad { milisegundos: -5 * 60_000 }.d_h_m_uno(), "-5 m");
}

#[test]
fn antiguedad_horas_y_minutos() {
    assert_eq!(Antiguedad { milisegundos: 65 * 60_000 }.h_m_junto(), "1h 5m");
    assert_eq!(Antiguedad { milisegundos: -65 * 60_000 }.h_m_junto(), "-1h 5m");
    assert_eq!(Antiguedad { milisegundos: 59 * 60_000 }.h_m_junto(), "59m");
    assert_eq!(Antiguedad { milisegundos: -500 }.h_m_junto(), "0m");
}

#[test]
fn antiguedad_reloj() {
    assert_eq!(Antiguedad { milisegundos: 3_723_000 }.h_m_s_tiempo(), "1:02:03");
    assert_eq!(Antiguedad { milisegundos: -3_723_000 }.h_m_s_tiempo(), "-1:02:03");
    assert_eq!(Antiguedad { milisegundos: 123_000 }.h_m_s_tiempo(), "2:03");
    assert_eq!(Antiguedad { milisegundos: 150_000 }.m_s_tiempo(), "2:30");
    assert_eq!(Antiguedad { milisegundos: -90_000 }.m_s_tiempo(), "-1:-30");
    assert_eq!(Antiguedad { milisegundos: 150_000 }.m(), "2m");
}

#[test]
fn antiguedad_segundos_con_decimales() {
    assert_eq!(Antiguedad { milisegundos: 1234 }.s_float(), "1.234 seg.");
    assert_eq!(Antiguedad { milisegundos: 1500 }.s_float(), "1.5 seg.");
    assert_eq!(Antiguedad { milisegundos: 1000 }.s_float(), "  1 seg.");
    assert_eq!(Antiguedad { milisegundos: 500 }.s_float(), "0.5 seg.");
    assert_eq!(Antiguedad { milisegundos: -500 }.s_float(), "-0.5 seg.");
    assert_eq!(Antiguedad { milisegundos: 1050 }.s_float(), "1.05 seg.");
}

#[test]
fn prefijo_de_bitacora() {
    let p = ahora_log();
    assert!(p.starts_with('['));
    assert!(p.ends_with("] "));
}
