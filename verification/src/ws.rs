//! Decision logic of the JSON-over-HTTP client: request target, header list,
//! status-code classification, response-envelope resolution and the exact
//! texts of every failure message. The network send, the JSON codec and the
//! conversion from the transport's response type stay outside the library;
//! each outcome is handed in here as plain values and resolved by a verified
//! function.

use vstd::prelude::*;
use vstd::utf8::{decode_utf8, valid_utf8};
use crate::Resultado;
use crate::texto::{i64_a_texto, texto_decimal};

verus! {

/// Fixed message for a connection-level transport failure; it deliberately
/// hides the underlying error text.
pub const MSG_ERROR_CNX: &'static str = "Error de conexi\u{f3}n (Es)";

/// Wire envelope of every call: a success flag, an error text (empty on
/// success) and the payload, meaningful only on success.
pub struct WSRespuesta<R> {
    pub ok: bool,
    pub error: String,
    pub contenido: R,
}

/// A response as the decision logic reads it: status code, reason phrase and
/// raw body bytes.
#[derive(Debug)]
pub struct RespuestaCruda {
    pub codigo: i32,
    pub razon: String,
    pub cuerpo: Vec<u8>,
}

/// Outcome of one attempt to decode a response body as the wire envelope:
/// either the envelope itself or the decoder's error text.
pub enum DecodificacionEnvoltura<R> {
    Correcta(WSRespuesta<R>),
    Fallida(String),
}

/// Message for a non-connection transport failure.
pub open spec fn msg_envio_spec(metodo: Seq<char>, error: Seq<char>) -> Seq<char> {
    "Error en \""@ + metodo + "\": "@ + error
}

/// Message for a response body that is not UTF-8.
pub open spec fn msg_utf8_spec(metodo: Seq<char>, error: Seq<char>) -> Seq<char> {
    "Respuesta \""@ + metodo + "\" no esta en UTF-8, "@ + error
}

/// Message for a response outside the 2xx range whose envelope could not be
/// decoded.
pub open spec fn msg_protocolo_spec(codigo: int, razon: Seq<char>, origen: Seq<char>) -> Seq<char> {
    "Respuesta HTTP "@ + texto_decimal(codigo) + " "@ + razon + " en \""@ + origen + "\""@
}

/// Message for a 2xx response whose envelope or payload does not match.
pub open spec fn msg_formato_spec(metodo: Seq<char>, error: Seq<char>) -> Seq<char> {
    "Formato del cuerpo WS recibido incorrecto en \""@ + metodo + "\", "@ + error
}

/// The request target: the base URL, a slash and the method name, with no
/// normalization of either segment.
pub fn destino(url: &str, metodo: &str) -> (r: String)
    ensures
        r@ == url@ + "/"@ + metodo@,
{
    let r = String::from_str(url).concat("/").concat(metodo);
    proof {
        assert(r@ =~= url@ + "/"@ + metodo@);
    }
    r
}

/// The header list of the outgoing request: the fixed `Content-Type` entry
/// first, then every caller entry in its given order. Under a transport whose
/// later headers overwrite earlier ones of the same name, a caller-supplied
/// `Content-Type` therefore wins.
pub fn cabeceras_peticion(cabeza: Vec<(String, String)>) -> (r: Vec<(String, String)>)
    ensures
        r@.len() == cabeza@.len() + 1,
        r@[0].0@ == "Content-Type"@,
        r@[0].1@ == "application/json; charset=UTF-8"@,
        forall|i: int| 0 <= i < cabeza@.len() ==> r@[i + 1] == cabeza@[i],
{
    let mut cabeza = cabeza;
    let mut r: Vec<(String, String)> = Vec::new();
    r.push(
        (
            String::from_str("Content-Type"),
            String::from_str("application/json; charset=UTF-8"),
        ),
    );
    r.append(&mut cabeza);
    r
}

/// Whether a status code counts as success.
pub fn es_exito(codigo: i32) -> (r: bool)
    ensures
        r == (200 <= codigo <= 299),
{
    200 <= codigo && codigo <= 299
}

/// Message for a non-connection transport failure.
pub fn msg_error_envio(metodo: &str, error: &str) -> (r: String)
    ensures
        r@ == msg_envio_spec(metodo@, error@),
{
    let r = String::from_str("Error en \"").concat(metodo).concat("\": ").concat(error);
    proof {
        assert(r@ =~= msg_envio_spec(metodo@, error@));
    }
    r
}

/// Maps a transport failure to its message: a connection-level (I/O) failure
/// becomes the fixed connection message, hiding the underlying text; any
/// other failure keeps the underlying text.
pub fn clasificar_error_envio(metodo: &str, es_io: bool, texto: &str) -> (r: String)
    ensures
        es_io ==> r@ == MSG_ERROR_CNX@,
        !es_io ==> r@ == msg_envio_spec(metodo@, texto@),
{
    if es_io {
        String::from_str(MSG_ERROR_CNX)
    } else {
        msg_error_envio(metodo, texto)
    }
}

/// Message for a response body that is not UTF-8.
pub fn msg_error_utf8(metodo: &str, error: &str) -> (r: String)
    ensures
        r@ == msg_utf8_spec(metodo@, error@),
{
    let r = String::from_str("Respuesta \"").concat(metodo).concat(
        "\" no esta en UTF-8, ",
    ).concat(error);
    proof {
        assert(r@ =~= msg_utf8_spec(metodo@, error@));
    }
    r
}

/// Message for a response outside the 2xx range whose envelope could not be
/// decoded.
pub fn msg_error_protocolo(codigo: i32, razon: &str, origen: &str) -> (r: String)
    ensures
        r@ == msg_protocolo_spec(codigo as int, razon@, origen@),
{
    let num = i64_a_texto(codigo as i64);
    let r = String::from_str("Respuesta HTTP ").concat(num.as_str()).concat(" ").concat(
        razon,
    ).concat(" en \"").concat(origen).concat("\"");
    proof {
        assert(r@ =~= msg_protocolo_spec(codigo as int, razon@, origen@));
    }
    r
}

/// Message for a 2xx response whose envelope or payload does not match.
pub fn msg_error_formato(metodo: &str, error: &str) -> (r: String)
    ensures
        r@ == msg_formato_spec(metodo@, error@),
{
    let r = String::from_str("Formato del cuerpo WS recibido incorrecto en \"").concat(
        metodo,
    ).concat("\", ").concat(error);
    proof {
        assert(r@ =~= msg_formato_spec(metodo@, error@));
    }
    r
}

/// Relies on std's `str::from_utf8`: it succeeds exactly on well-formed UTF-8
/// and yields the decoded characters; on failure the error's display text is
/// returned as-is.
#[verifier::external_body]
fn decodificar_utf8(cuerpo: &[u8]) -> (r: Result<String, String>)
    ensures
        r is Ok <==> valid_utf8(cuerpo@),
        r is Ok ==> r->Ok_0@ == decode_utf8(cuerpo@),
{
    match std::str::from_utf8(cuerpo) {
        Ok(s) => Ok(s.to_owned()),
        Err(e) => Err(e.to_string()),
    }
}

/// Decodes the response body as UTF-8 text: the decoded characters on
/// well-formed bytes, and otherwise the encoding-failure message built from
/// the method name and the decoder's error text.
pub fn cuerpo_a_texto(metodo: &str, cuerpo: &Vec<u8>) -> (r: Resultado<String>)
    ensures
        r is Ok <==> valid_utf8(cuerpo@),
        r is Ok ==> r->Ok_0@ == decode_utf8(cuerpo@),
        r is Err ==> exists|e: Seq<char>| r->Err_0@ == #[trigger] msg_utf8_spec(metodo@, e),
{
    match decodificar_utf8(cuerpo.as_slice()) {
        Ok(s) => Ok(s),
        Err(e) => {
            let m = msg_error_utf8(metodo, e.as_str());
            proof {
                assert(m@ == msg_utf8_spec(metodo@, e@));
            }
            Err(m)
        },
    }
}

/// Resolves a response outside the 2xx range into its failure message: the
/// server-reported `error` field verbatim when the envelope decoded
/// (status-code context discarded on purpose), and the protocol message
/// otherwise.
pub fn resolver_respuesta_error(
    codigo: i32,
    razon: &str,
    metodo: &str,
    decodificada: DecodificacionEnvoltura<String>,
) -> (r: String)
    ensures
        r@ == match decodificada {
            DecodificacionEnvoltura::Correcta(env) => env.error@,
            DecodificacionEnvoltura::Fallida(_) => msg_protocolo_spec(
                codigo as int,
                razon@,
                metodo@,
            ),
        },
{
    match decodificada {
        DecodificacionEnvoltura::Correcta(env) => env.error,
        DecodificacionEnvoltura::Fallida(_) => msg_error_protocolo(codigo, razon, metodo),
    }
}

/// Resolves a 2xx response from its envelope-decode outcome: the envelope's
/// payload on success (`ok` and `error` discarded), and the format-failure
/// message built from the method name and the decoder's error text otherwise.
pub fn resolver_respuesta_exito<R>(
    metodo: &str,
    decodificada: DecodificacionEnvoltura<R>,
) -> (r: Resultado<R>)
    ensures
        match decodificada {
            DecodificacionEnvoltura::Correcta(env) => r == Ok::<R, String>(env.contenido),
            DecodificacionEnvoltura::Fallida(e) => r is Err && r->Err_0@ == msg_formato_spec(
                metodo@,
                e@,
            ),
        },
{
    match decodificada {
        DecodificacionEnvoltura::Correcta(env) => Ok(env.contenido),
        DecodificacionEnvoltura::Fallida(e) => Err(msg_error_formato(metodo, e.as_str())),
    }
}

/// Resolves a raw GET response: a 2xx response is returned untouched, and any
/// other status becomes the protocol-failure message built from the URL.
pub fn resolver_respuesta_cruda(url: &str, respuesta: RespuestaCruda) -> (r: Resultado<
    RespuestaCruda,
>)
    ensures
        200 <= respuesta.codigo <= 299 ==> r == Ok::<RespuestaCruda, String>(respuesta),
        !(200 <= respuesta.codigo <= 299) ==> r is Err && r->Err_0@ == msg_protocolo_spec(
            respuesta.codigo as int,
            respuesta.razon@,
            url@,
        ),
{
    if es_exito(respuesta.codigo) {
        Ok(respuesta)
    } else {
        let m = msg_error_protocolo(respuesta.codigo, respuesta.razon.as_str(), url);
        Err(m)
    }
}

} // verus!
