//! Date and time formatting over plain calendar values: a date, a time of
//! day, their combination, and an age expressed in milliseconds. Parsing of
//! date and time texts is done by the calendar library behind trusted
//! wrappers; every formatting rule is stated and proved here.

use vstd::prelude::*;
use vstd::arithmetic::div_mod::{
    lemma_div_denominator,
    lemma_div_is_ordered,
    lemma_div_is_ordered_by_denominator,
    lemma_div_pos_is_pos,
    lemma_fundamental_div_mod,
    lemma_mod_division_less_than_divisor,
};
use crate::texto::{
    i64_a_texto,
    i64_a_texto_dos,
    texto_decimal,
    texto_decimal_nat,
    texto_dos_digitos,
    u64_a_texto,
};
use chrono::{Datelike, Timelike};

verus! {

/// A calendar date as plain values.
#[derive(Clone, Copy, Debug)]
pub struct Fecha {
    pub anio: i32,
    pub mes: u32,
    pub dia: u32,
}

/// A time of day as plain values.
#[derive(Clone, Copy, Debug)]
pub struct Hora {
    pub hora: u32,
    pub minuto: u32,
    pub segundo: u32,
}

/// A date with a time of day.
#[derive(Clone, Copy, Debug)]
pub struct FechaHora {
    pub fecha: Fecha,
    pub hora: Hora,
}

/// A date range.
#[derive(Clone, Copy, Debug)]
pub struct RangoFechas {
    pub de: Fecha,
    pub a: Fecha,
}

/// A time range.
#[derive(Clone, Copy, Debug)]
pub struct RangoHoras {
    pub de: Hora,
    pub a: Hora,
}

impl Fecha {
    /// The month names a month, and the day could name a day of one.
    pub open spec fn bien_formada(self) -> bool {
        1 <= self.mes <= 12 && 1 <= self.dia <= 31
    }
}

impl Hora {
    /// The fields name a time of day.
    pub open spec fn bien_formada(self) -> bool {
        self.hora < 24 && self.minuto < 60 && self.segundo < 60
    }
}

impl FechaHora {
    /// Both halves are well formed.
    pub open spec fn bien_formada(self) -> bool {
        self.fecha.bien_formada() && self.hora.bien_formada()
    }
}

/// The three-letter month abbreviation.
pub open spec fn mes_abreviado_spec(m: int) -> Seq<char> {
    if m == 1 {
        "Ene"@
    } else if m == 2 {
        "Feb"@
    } else if m == 3 {
        "Mar"@
    } else if m == 4 {
        "Abr"@
    } else if m == 5 {
        "May"@
    } else if m == 6 {
        "Jun"@
    } else if m == 7 {
        "Jul"@
    } else if m == 8 {
        "Ago"@
    } else if m == 9 {
        "Sep"@
    } else if m == 10 {
        "Oct"@
    } else if m == 11 {
        "Nov"@
    } else {
        "Dic"@
    }
}

/// A date as day, abbreviated month and year, separated by single spaces.
pub open spec fn texto_ddmmmaa_de(anio: int, mes: int, dia: int) -> Seq<char> {
    texto_decimal(dia) + " "@ + mes_abreviado_spec(mes) + " "@ + texto_decimal(anio)
}

/// A time as zero-padded hours and minutes.
pub open spec fn texto_hhmm_de(hora: int, minuto: int) -> Seq<char> {
    texto_dos_digitos(hora) + ":"@ + texto_dos_digitos(minuto)
}

/// A time as zero-padded hours, minutes and seconds.
pub open spec fn texto_hhmmss_de(hora: int, minuto: int, segundo: int) -> Seq<char> {
    texto_dos_digitos(hora) + ":"@ + texto_dos_digitos(minuto) + ":"@ + texto_dos_digitos(segundo)
}

/// The hour on a twelve-hour clock: midnight and noon read as twelve.
pub open spec fn hora_doce(hora: int) -> int {
    if hora == 0 {
        12
    } else if hora > 12 {
        hora - 12
    } else {
        hora
    }
}

/// A time on the twelve-hour clock: unpadded hour, zero-padded minutes and
/// the half-day marker.
pub open spec fn texto_hhmm_ampm_de(hora: int, minuto: int) -> Seq<char> {
    texto_decimal(hora_doce(hora)) + ":"@ + texto_dos_digitos(minuto) + (if hora < 12 {
        " AM"@
    } else {
        " PM"@
    })
}

/// The three-letter month abbreviation.
pub fn mes_abreviado(mes: u32) -> (r: &'static str)
    requires
        1 <= mes <= 12,
    ensures
        r@ == mes_abreviado_spec(mes as int),
{
    if mes == 1 {
        "Ene"
    } else if mes == 2 {
        "Feb"
    } else if mes == 3 {
        "Mar"
    } else if mes == 4 {
        "Abr"
    } else if mes == 5 {
        "May"
    } else if mes == 6 {
        "Jun"
    } else if mes == 7 {
        "Jul"
    } else if mes == 8 {
        "Ago"
    } else if mes == 9 {
        "Sep"
    } else if mes == 10 {
        "Oct"
    } else if mes == 11 {
        "Nov"
    } else {
        "Dic"
    }
}

/// Date formats.
pub trait FormatosFecha {
    /// Whether the value names a date this format can write.
    spec fn fecha_valida(&self) -> bool;

    /// The date as day, abbreviated month and year.
    fn to_string_ddmmmaa(&self) -> String
        requires
            self.fecha_valida(),
    ;
}

impl FormatosFecha for Fecha {
    open spec fn fecha_valida(&self) -> bool {
        1 <= self.mes <= 12
    }

    fn to_string_ddmmmaa(&self) -> (r: String)
        ensures
            r@ == texto_ddmmmaa_de(self.anio as int, self.mes as int, self.dia as int),
    {
        let r = i64_a_texto(self.dia as i64).concat(" ").concat(mes_abreviado(self.mes)).concat(
            " ",
        ).concat(i64_a_texto(self.anio as i64).as_str());
        proof {
            assert(r@ =~= texto_ddmmmaa_de(self.anio as int, self.mes as int, self.dia as int));
        }
        r
    }
}

/// Time formats.
pub trait FormatosHora {
    /// Whether the value names an hour of the day.
    spec fn hora_valida(&self) -> bool;

    /// The time as zero-padded hours and minutes.
    fn to_string_hhmm(&self) -> String;

    /// The time as zero-padded hours, minutes and seconds.
    fn to_string_hhmmss(&self) -> String;

    /// The time on the twelve-hour clock with the half-day marker.
    fn to_string_hhmm_ampm(&self) -> String
        requires
            self.hora_valida(),
    ;
}

impl FormatosHora for Hora {
    open spec fn hora_valida(&self) -> bool {
        self.hora < 24
    }

    fn to_string_hhmm(&self) -> (r: String)
        ensures
            r@ == texto_hhmm_de(self.hora as int, self.minuto as int),
    {
        let r = i64_a_texto_dos(self.hora as i64).concat(":").concat(
            i64_a_texto_dos(self.minuto as i64).as_str(),
        );
        proof {
            assert(r@ =~= texto_hhmm_de(self.hora as int, self.minuto as int));
        }
        r
    }

    fn to_string_hhmmss(&self) -> (r: String)
        ensures
            r@ == texto_hhmmss_de(self.hora as int, self.minuto as int, self.segundo as int),
    {
        let r = i64_a_texto_dos(self.hora as i64).concat(":").concat(
            i64_a_texto_dos(self.minuto as i64).as_str(),
        ).concat(":").concat(i64_a_texto_dos(self.segundo as i64).as_str());
        proof {
            assert(r@ =~= texto_hhmmss_de(
                self.hora as int,
                self.minuto as int,
                self.segundo as int,
            ));
        }
        r
    }

    fn to_string_hhmm_ampm(&self) -> (r: String)
        ensures
            r@ == texto_hhmm_ampm_de(self.hora as int, self.minuto as int),
    {
        let doce: u32 = if self.hora == 0 {
            12
        } else if self.hora > 12 {
            self.hora - 12
        } else {
            self.hora
        };
        let marca: &str = if self.hora < 12 {
            " AM"
        } else {
            " PM"
        };
        let r = i64_a_texto(doce as i64).concat(":").concat(
            i64_a_texto_dos(self.minuto as i64).as_str(),
        ).concat(marca);
        proof {
            assert(r@ =~= texto_hhmm_ampm_de(self.hora as int, self.minuto as int));
        }
        r
    }
}

/// Combined date-and-time formats: the date, two spaces, the time.
pub trait FormatosFechaHora {
    /// Whether the value names a date these formats can write.
    spec fn fecha_hora_valida(&self) -> bool;

    /// Date and zero-padded hours and minutes.
    fn to_string_ddmmmaa_hhmm(&self) -> String
        requires
            self.fecha_hora_valida(),
    ;

    /// Date and zero-padded hours, minutes and seconds.
    fn to_string_ddmmmaa_hhmmss(&self) -> String
        requires
            self.fecha_hora_valida(),
    ;
}

impl FormatosFechaHora for FechaHora {
    open spec fn fecha_hora_valida(&self) -> bool {
        1 <= self.fecha.mes <= 12
    }

    fn to_string_ddmmmaa_hhmm(&self) -> (r: String)
        ensures
            r@ == texto_ddmmmaa_de(self.fecha.anio as int, self.fecha.mes as int, self.fecha.dia as int)
                + "  "@ + texto_hhmm_de(self.hora.hora as int, self.hora.minuto as int),
    {
        let r = self.fecha.to_string_ddmmmaa().concat("  ").concat(
            self.hora.to_string_hhmm().as_str(),
        );
        proof {
            assert(r@ =~= texto_ddmmmaa_de(
                self.fecha.anio as int,
                self.fecha.mes as int,
                self.fecha.dia as int,
            ) + "  "@ + texto_hhmm_de(self.hora.hora as int, self.hora.minuto as int));
        }
        r
    }

    fn to_string_ddmmmaa_hhmmss(&self) -> (r: String)
        ensures
            r@ == texto_ddmmmaa_de(self.fecha.anio as int, self.fecha.mes as int, self.fecha.dia as int)
                + "  "@ + texto_hhmmss_de(
                self.hora.hora as int,
                self.hora.minuto as int,
                self.hora.segundo as int,
            ),
    {
        let r = self.fecha.to_string_ddmmmaa().concat("  ").concat(
            self.hora.to_string_hhmmss().as_str(),
        );
        proof {
            assert(r@ =~= texto_ddmmmaa_de(
                self.fecha.anio as int,
                self.fecha.mes as int,
                self.fecha.dia as int,
            ) + "  "@ + texto_hhmmss_de(
                self.hora.hora as int,
                self.hora.minuto as int,
                self.hora.segundo as int,
            ));
        }
        r
    }
}

/// The date an ISO `year-month-day` text names, as year, month and day, or
/// nothing when the text is not such a date.
pub uninterp spec fn fecha_analizada(s: Seq<char>) -> Option<(int, int, int)>;

/// The time of day an `hours:minutes` or `hours:minutes:seconds` text names,
/// or nothing when the text is not such a time.
pub uninterp spec fn hora_analizada(s: Seq<char>) -> Option<(int, int, int)>;

/// The instant a `year-month-day hours:minutes:seconds` text names, as year,
/// month, day, hour, minute and second, or nothing when the text is not such
/// an instant.
pub uninterp spec fn fecha_hora_analizada(s: Seq<char>) -> Option<(int, int, int, int, int, int)>;

/// Relies on the `FromStr` reading of `chrono::NaiveDate`: it parses an ISO
/// `year-month-day` text and only ever yields a calendar-valid date.
#[verifier::external_body]
fn analizar_fecha_iso(texto: &str) -> (r: Option<Fecha>)
    ensures
        r is Some <==> fecha_analizada(texto@) is Some,
        r is Some ==> fecha_analizada(texto@).unwrap() == (
            r.unwrap().anio as int,
            r.unwrap().mes as int,
            r.unwrap().dia as int,
        ) && r.unwrap().bien_formada(),
{
    match <chrono::NaiveDate as std::str::FromStr>::from_str(texto) {
        Ok(d) => Some(Fecha { anio: d.year(), mes: d.month(), dia: d.day() }),
        Err(_) => None,
    }
}

/// Relies on the `FromStr` reading of `chrono::NaiveTime`: it parses an
/// `hours:minutes` or `hours:minutes:seconds` text and only ever yields a
/// valid time of day.
#[verifier::external_body]
fn analizar_hora(texto: &str) -> (r: Option<Hora>)
    ensures
        r is Some <==> hora_analizada(texto@) is Some,
        r is Some ==> hora_analizada(texto@).unwrap() == (
            r.unwrap().hora as int,
            r.unwrap().minuto as int,
            r.unwrap().segundo as int,
        ) && r.unwrap().bien_formada(),
{
    match <chrono::NaiveTime as std::str::FromStr>::from_str(texto) {
        Ok(t) => Some(Hora { hora: t.hour(), minuto: t.minute(), segundo: t.second() }),
        Err(_) => None,
    }
}

/// Relies on `chrono::NaiveDateTime::parse_from_str` with the fixed
/// `year-month-day hours:minutes:seconds` format: it only ever yields a
/// calendar-valid instant; on failure the error's display text is returned
/// as-is.
#[verifier::external_body]
fn analizar_fecha_hora(texto: &str) -> (r: Result<FechaHora, String>)
    ensures
        r is Ok <==> fecha_hora_analizada(texto@) is Some,
        r is Ok ==> fecha_hora_analizada(texto@).unwrap() == (
            r->Ok_0.fecha.anio as int,
            r->Ok_0.fecha.mes as int,
            r->Ok_0.fecha.dia as int,
            r->Ok_0.hora.hora as int,
            r->Ok_0.hora.minuto as int,
            r->Ok_0.hora.segundo as int,
        ) && r->Ok_0.bien_formada(),
{
    match chrono::NaiveDateTime::parse_from_str(texto, "%Y-%m-%d %H:%M:%S") {
        Ok(dt) => Ok(
            FechaHora {
                fecha: Fecha { anio: dt.year(), mes: dt.month(), dia: dt.day() },
                hora: Hora { hora: dt.hour(), minuto: dt.minute(), segundo: dt.second() },
            },
        ),
        Err(e) => Err(e.to_string()),
    }
}

/// Relies on `chrono::Local::now` and its formatter: a log prefix built from
/// the wall clock, on which nothing can be promised.
#[verifier::external_body]
pub fn ahora_log() -> String {
    chrono::Local::now().format("[%F %T] ").to_string()
}

/// The text a date text reads as: day, abbreviated month and year when the
/// text is an ISO date, and a dash placeholder otherwise (an empty text
/// included).
pub open spec fn fecha_str_ddmmmaa_spec(s: Seq<char>) -> Seq<char> {
    match fecha_analizada(s) {
        Some(p) => texto_ddmmmaa_de(p.0, p.1, p.2),
        None => "-------"@,
    }
}

/// Reformats an ISO `year-month-day` text as day, abbreviated month and year;
/// a text that is not such a date reads as a dash placeholder.
pub fn fecha_str_ddmmmaa(f: &String) -> (r: String)
    ensures
        r@ == fecha_str_ddmmmaa_spec(f@),
{
    match analizar_fecha_iso(f.as_str()) {
        Some(fecha) => fecha.to_string_ddmmmaa(),
        None => String::from_str("-------"),
    }
}

/// The text a time text reads as: zero-padded hours and minutes when the text
/// is a time of day, and a dash placeholder otherwise.
pub open spec fn hora_hhmm_spec(s: Seq<char>) -> Seq<char> {
    match hora_analizada(s) {
        Some(p) => texto_hhmm_de(p.0, p.1),
        None => "---"@,
    }
}

/// Reformats a time text as zero-padded hours and minutes; a text that is not
/// a time of day reads as a dash placeholder.
pub fn hora_hhmm(t: &String) -> (r: String)
    ensures
        r@ == hora_hhmm_spec(t@),
{
    match analizar_hora(t.as_str()) {
        Some(hora) => hora.to_string_hhmm(),
        None => String::from_str("---"),
    }
}

/// The text a time text reads as on the twelve-hour clock, and a dash
/// placeholder when it is not a time of day.
pub open spec fn hora_hhmm_ampm_spec(s: Seq<char>) -> Seq<char> {
    match hora_analizada(s) {
        Some(p) => texto_hhmm_ampm_de(p.0, p.1),
        None => "---"@,
    }
}

/// Reformats a time text on the twelve-hour clock with the half-day marker; a
/// text that is not a time of day reads as a dash placeholder.
pub fn hora_hhmm_ampm(t: &String) -> (r: String)
    ensures
        r@ == hora_hhmm_ampm_spec(t@),
{
    match analizar_hora(t.as_str()) {
        Some(hora) => hora.to_string_hhmm_ampm(),
        None => String::from_str("---"),
    }
}

/// A date and time as the fixed `year-month-day hours:minutes:seconds` wire
/// text, every field zero-padded, the year to four digits.
pub open spec fn texto_fecha_hora_json(fh: FechaHora) -> Seq<char> {
    texto_cuatro_digitos(fh.fecha.anio as int) + "-"@ + texto_dos_digitos(fh.fecha.mes as int)
        + "-"@ + texto_dos_digitos(fh.fecha.dia as int) + " "@ + texto_hhmmss_de(
        fh.hora.hora as int,
        fh.hora.minuto as int,
        fh.hora.segundo as int,
    )
}

/// Decimal rendering zero-padded to four digits; a negative number keeps its
/// sign before the padded magnitude.
pub open spec fn texto_cuatro_digitos(n: int) -> Seq<char> {
    if n < 0 {
        seq!['-'] + texto_cuatro_digitos_nat((-n) as nat)
    } else {
        texto_cuatro_digitos_nat(n as nat)
    }
}

/// Decimal rendering of a magnitude zero-padded to four digits.
pub open spec fn texto_cuatro_digitos_nat(n: nat) -> Seq<char> {
    if n < 10 {
        "000"@ + crate::texto::texto_decimal_nat(n)
    } else if n < 100 {
        "00"@ + crate::texto::texto_decimal_nat(n)
    } else if n < 1000 {
        "0"@ + crate::texto::texto_decimal_nat(n)
    } else {
        crate::texto::texto_decimal_nat(n)
    }
}

/// Renders a year zero-padded to four digits.
fn anio_a_texto(n: i32) -> (r: String)
    ensures
        r@ == texto_cuatro_digitos(n as int),
{
    let magnitud: u64 = if n < 0 {
        (-(n as i64)) as u64
    } else {
        n as u64
    };
    let relleno: &str = if magnitud < 10 {
        "000"
    } else if magnitud < 100 {
        "00"
    } else if magnitud < 1000 {
        "0"
    } else {
        ""
    };
    let cuerpo = String::from_str(relleno).concat(crate::texto::u64_a_texto(magnitud).as_str());
    proof {
        reveal_strlit("");
        assert(cuerpo@ =~= texto_cuatro_digitos_nat(magnitud as nat));
    }
    if n < 0 {
        let r = String::from_str("-").concat(cuerpo.as_str());
        proof {
            reveal_strlit("-");
            assert(r@ =~= seq!['-'] + texto_cuatro_digitos_nat(magnitud as nat));
        }
        r
    } else {
        cuerpo
    }
}

/// Writes a date and time as the fixed wire text `year-month-day
/// hours:minutes:seconds`.
pub fn fecha_hora_a_texto(fh: &FechaHora) -> (r: String)
    ensures
        r@ == texto_fecha_hora_json(*fh),
{
    let r = anio_a_texto(fh.fecha.anio).concat("-").concat(
        i64_a_texto_dos(fh.fecha.mes as i64).as_str(),
    ).concat("-").concat(i64_a_texto_dos(fh.fecha.dia as i64).as_str()).concat(" ").concat(
        fh.hora.to_string_hhmmss().as_str(),
    );
    proof {
        assert(r@ =~= texto_fecha_hora_json(*fh));
    }
    r
}

/// The error message for a date-and-time text that does not match the wire
/// format.
pub open spec fn msg_fecha_hora_spec(error: Seq<char>) -> Seq<char> {
    "Formato DateTime incorrecto: "@ + error
}

/// Reads a date and time from the fixed wire text `year-month-day
/// hours:minutes:seconds`; a text that does not match fails with a message
/// holding the parser's error text.
pub fn fecha_hora_desde_texto(s: &str) -> (r: Result<FechaHora, String>)
    ensures
        r is Ok <==> fecha_hora_analizada(s@) is Some,
        r is Ok ==> fecha_hora_analizada(s@).unwrap() == (
            r->Ok_0.fecha.anio as int,
            r->Ok_0.fecha.mes as int,
            r->Ok_0.fecha.dia as int,
            r->Ok_0.hora.hora as int,
            r->Ok_0.hora.minuto as int,
            r->Ok_0.hora.segundo as int,
        ) && r->Ok_0.bien_formada(),
        r is Err ==> exists|e: Seq<char>| r->Err_0@ == #[trigger] msg_fecha_hora_spec(e),
{
    match analizar_fecha_hora(s) {
        Ok(fh) => Ok(fh),
        Err(e) => {
            let m = String::from_str("Formato DateTime incorrecto: ").concat(e.as_str());
            proof {
                assert(m@ =~= msg_fecha_hora_spec(e@));
            }
            Err(m)
        },
    }
}

/// An age: a span of time held as whole milliseconds, negative when it runs
/// backwards.
#[derive(Clone, Copy, Debug)]
pub struct Antiguedad {
    pub milisegundos: i64,
}

/// The magnitude of an integer.
pub open spec fn abs_int(n: int) -> int {
    if n < 0 {
        -n
    } else {
        n
    }
}

/// Division that truncates toward zero, as the machine division of signed
/// integers does.
pub open spec fn div_trunc(n: int, d: int) -> int
    recommends
        d > 0,
{
    if n >= 0 {
        n / d
    } else {
        -((-n) / d)
    }
}

impl Antiguedad {
    /// Whole days of the span, truncated toward zero.
    pub open spec fn dias(self) -> int {
        div_trunc(self.milisegundos as int, 86400000)
    }

    /// Whole hours of the span, truncated toward zero.
    pub open spec fn horas(self) -> int {
        div_trunc(self.milisegundos as int, 3600000)
    }

    /// Whole minutes of the span, truncated toward zero.
    pub open spec fn minutos(self) -> int {
        div_trunc(self.milisegundos as int, 60000)
    }

    /// Whole seconds of the span, truncated toward zero.
    pub open spec fn segundos(self) -> int {
        div_trunc(self.milisegundos as int, 1000)
    }
}

/// The span under its largest unit: whole days when at least one, else whole
/// hours when at least one, else whole minutes.
pub open spec fn texto_d_h_m_uno(a: Antiguedad) -> Seq<char> {
    if a.dias() >= 1 {
        texto_decimal(a.dias()) + " d"@
    } else if a.horas() >= 1 {
        texto_decimal(a.horas()) + " h"@
    } else {
        texto_decimal(a.minutos()) + " m"@
    }
}

/// The span as hours and leftover minutes, one shared sign first: only the
/// minutes when there is no whole hour.
pub open spec fn texto_h_m_junto(a: Antiguedad) -> Seq<char> {
    let signo: Seq<char> = if a.minutos() < 0 {
        seq!['-']
    } else {
        Seq::empty()
    };
    let horas = abs_int(a.horas());
    let minutos = abs_int(a.minutos());
    if horas == 0 {
        signo + texto_decimal(minutos) + "m"@
    } else {
        signo + texto_decimal(horas) + "h "@ + texto_decimal(minutos - horas * 60) + "m"@
    }
}

/// The span as a clock reading, one shared sign first: leftover minutes and
/// seconds under the whole hours, the hours dropped when there are none, the
/// lower fields zero-padded.
pub open spec fn texto_h_m_s_tiempo(a: Antiguedad) -> Seq<char> {
    let signo: Seq<char> = if a.segundos() < 0 {
        seq!['-']
    } else {
        Seq::empty()
    };
    let horas = abs_int(a.horas());
    let minutos = abs_int(a.minutos());
    let segundos = abs_int(a.segundos()) - minutos * 60;
    if horas == 0 {
        signo + texto_decimal(minutos) + ":"@ + texto_dos_digitos(segundos)
    } else {
        signo + texto_decimal(horas) + ":"@ + texto_dos_digitos(minutos - horas * 60) + ":"@
            + texto_dos_digitos(segundos)
    }
}

/// The span as whole minutes and leftover seconds, each field keeping its own
/// sign, the seconds zero-padded while non-negative.
pub open spec fn texto_m_s_tiempo(a: Antiguedad) -> Seq<char> {
    texto_decimal(a.minutos()) + ":"@ + texto_dos_digitos(a.segundos() - a.minutos() * 60)
}

/// The span as whole minutes.
pub open spec fn texto_m(a: Antiguedad) -> Seq<char> {
    texto_decimal(a.minutos()) + "m"@
}

/// Decimal rendering of a magnitude zero-padded to three digits.
pub open spec fn texto_tres_digitos_nat(n: nat) -> Seq<char> {
    if n < 10 {
        "00"@ + texto_decimal_nat(n)
    } else if n < 100 {
        "0"@ + texto_decimal_nat(n)
    } else {
        texto_decimal_nat(n)
    }
}

/// The fractional-second digits of a millisecond remainder: nothing when it
/// is zero, and otherwise a point and the remainder's digits with trailing
/// zeros dropped.
pub open spec fn texto_fraccion_ms(f: int) -> Seq<char>
    recommends
        0 <= f < 1000,
{
    if f == 0 {
        Seq::empty()
    } else if f % 100 == 0 {
        "."@ + texto_decimal(f / 100)
    } else if f % 10 == 0 {
        "."@ + texto_dos_digitos(f / 10)
    } else {
        "."@ + texto_tres_digitos_nat(f as nat)
    }
}

/// The span as seconds with up to three decimals, trailing zeros dropped.
pub open spec fn texto_segundos_fraccion(ms: int) -> Seq<char> {
    let mag = abs_int(ms);
    let cuerpo = texto_decimal_nat((mag / 1000) as nat) + texto_fraccion_ms(mag % 1000);
    if ms < 0 {
        seq!['-'] + cuerpo
    } else {
        cuerpo
    }
}

/// A text padded on the left with spaces to width three.
pub open spec fn relleno_tres(s: Seq<char>) -> Seq<char> {
    if s.len() >= 3 {
        s
    } else if s.len() == 2 {
        " "@ + s
    } else {
        "  "@ + s
    }
}

/// The span as fractional seconds, right-aligned to width three, with the
/// unit name after it.
pub open spec fn texto_s_float(a: Antiguedad) -> Seq<char> {
    relleno_tres(texto_segundos_fraccion(a.milisegundos as int)) + " seg."@
}

/// Sign and magnitude of the span's milliseconds.
fn particion(ms: i64) -> (r: (bool, u64))
    ensures
        r.0 == (ms < 0),
        r.1 as int == abs_int(ms as int),
        r.1 <= 0x8000_0000_0000_0000u64,
{
    if ms < 0 {
        if ms == i64::MIN {
            (true, 9223372036854775808u64)
        } else {
            (true, (-ms) as u64)
        }
    } else {
        (false, ms as u64)
    }
}

/// A magnitude divided by a unit of at least a thousand milliseconds.
fn cociente_mag(mag: u64, divisor: u64) -> (q: u64)
    requires
        divisor >= 1000,
        mag <= 0x8000_0000_0000_0000u64,
    ensures
        q as int == mag as int / divisor as int,
        q <= 9223372036854775u64,
{
    proof {
        lemma_div_is_ordered_by_denominator(mag as int, 1000, divisor as int);
        lemma_div_is_ordered(mag as int, 0x8000_0000_0000_0000, 1000);
        assert(0x8000_0000_0000_0000int / 1000int == 9223372036854775int);
    }
    mag / divisor
}

/// Magnitude division matches truncating division: same magnitude, and the
/// quotient is negative exactly when the number is and the magnitudes divide
/// to something.
proof fn lemma_div_trunc(n: int, d: int)
    requires
        d > 0,
    ensures
        abs_int(div_trunc(n, d)) == abs_int(n) / d,
        (div_trunc(n, d) < 0) <==> (n < 0 && abs_int(n) / d > 0),
        (div_trunc(n, d) >= 1) <==> (n >= 0 && abs_int(n) / d >= 1),
{
    if n >= 0 {
        lemma_div_pos_is_pos(n, d);
    } else {
        lemma_div_pos_is_pos(-n, d);
    }
}

/// Age formats.
pub trait FormatosAntiguedad {
    /// The span under its largest unit: days, hours or minutes.
    fn d_h_m_uno(&self) -> String;

    /// Hours and leftover minutes under one sign.
    fn h_m_junto(&self) -> String;

    /// A clock reading: hours, leftover minutes and seconds under one sign.
    fn h_m_s_tiempo(&self) -> String;

    /// Whole minutes and leftover seconds.
    fn m_s_tiempo(&self) -> String;

    /// Whole minutes.
    fn m(&self) -> String;

    /// Fractional seconds with the unit name.
    fn s_float(&self) -> String;
}

impl FormatosAntiguedad for Antiguedad {
    fn d_h_m_uno(&self) -> (r: String)
        ensures
            r@ == texto_d_h_m_uno(*self),
    {
        let (neg, mag) = particion(self.milisegundos);
        proof {
            lemma_div_trunc(self.milisegundos as int, 86400000);
            lemma_div_trunc(self.milisegundos as int, 3600000);
            lemma_div_trunc(self.milisegundos as int, 60000);
        }
        let dias = cociente_mag(mag, 86400000);
        if !neg && dias >= 1 {
            let r = u64_a_texto(dias).concat(" d");
            proof {
                assert(r@ =~= texto_d_h_m_uno(*self));
            }
            r
        } else {
            let horas = cociente_mag(mag, 3600000);
            if !neg && horas >= 1 {
                let r = u64_a_texto(horas).concat(" h");
                proof {
                    assert(r@ =~= texto_d_h_m_uno(*self));
                }
                r
            } else {
                let minutos = cociente_mag(mag, 60000);
                let cuerpo = if neg && minutos > 0 {
                    let c = String::from_str("-").concat(u64_a_texto(minutos).as_str());
                    proof {
                        reveal_strlit("-");
                        assert(c@ =~= texto_decimal(self.minutos()));
                    }
                    c
                } else {
                    u64_a_texto(minutos)
                };
                let r = cuerpo.concat(" m");
                proof {
                    assert(r@ =~= texto_d_h_m_uno(*self));
                }
                r
            }
        }
    }

    fn h_m_junto(&self) -> (r: String)
        ensures
            r@ == texto_h_m_junto(*self),
    {
        let (neg, mag) = particion(self.milisegundos);
        proof {
            lemma_div_trunc(self.milisegundos as int, 3600000);
            lemma_div_trunc(self.milisegundos as int, 60000);
        }
        let minutos = cociente_mag(mag, 60000);
        let horas = cociente_mag(mag, 3600000);
        proof {
            lemma_div_denominator(mag as int, 60000, 60);
            lemma_fundamental_div_mod(minutos as int, 60);
            lemma_mod_division_less_than_divisor(minutos as int, 60);
            assert(horas as int == minutos as int / 60);
        }
        let resto = minutos - horas * 60;
        let cuerpo = if horas == 0 {
            u64_a_texto(minutos).concat("m")
        } else {
            u64_a_texto(horas).concat("h ").concat(u64_a_texto(resto).as_str()).concat("m")
        };
        let r = if neg && minutos > 0 {
            String::from_str("-").concat(cuerpo.as_str())
        } else {
            cuerpo
        };
        proof {
            reveal_strlit("-");
            assert(r@ =~= texto_h_m_junto(*self));
        }
        r
    }

    fn h_m_s_tiempo(&self) -> (r: String)
        ensures
            r@ == texto_h_m_s_tiempo(*self),
    {
        let (neg, mag) = particion(self.milisegundos);
        proof {
            lemma_div_trunc(self.milisegundos as int, 3600000);
            lemma_div_trunc(self.milisegundos as int, 60000);
            lemma_div_trunc(self.milisegundos as int, 1000);
        }
        let segundos = cociente_mag(mag, 1000);
        let minutos = cociente_mag(mag, 60000);
        let horas = cociente_mag(mag, 3600000);
        proof {
            lemma_div_denominator(mag as int, 1000, 60);
            lemma_div_denominator(mag as int, 60000, 60);
            lemma_fundamental_div_mod(segundos as int, 60);
            lemma_mod_division_less_than_divisor(segundos as int, 60);
            lemma_fundamental_div_mod(minutos as int, 60);
            lemma_mod_division_less_than_divisor(minutos as int, 60);
            assert(minutos as int == segundos as int / 60);
            assert(horas as int == minutos as int / 60);
        }
        let resto_seg = segundos - minutos * 60;
        let cuerpo = if horas == 0 {
            u64_a_texto(minutos).concat(":").concat(i64_a_texto_dos(resto_seg as i64).as_str())
        } else {
            let resto_min = minutos - horas * 60;
            u64_a_texto(horas).concat(":").concat(i64_a_texto_dos(resto_min as i64).as_str())
                .concat(":").concat(i64_a_texto_dos(resto_seg as i64).as_str())
        };
        let r = if neg && segundos > 0 {
            String::from_str("-").concat(cuerpo.as_str())
        } else {
            cuerpo
        };
        proof {
            reveal_strlit("-");
            assert(r@ =~= texto_h_m_s_tiempo(*self));
        }
        r
    }

    fn m_s_tiempo(&self) -> (r: String)
        ensures
            r@ == texto_m_s_tiempo(*self),
    {
        let (neg, mag) = particion(self.milisegundos);
        proof {
            lemma_div_trunc(self.milisegundos as int, 60000);
            lemma_div_trunc(self.milisegundos as int, 1000);
        }
        let segundos = cociente_mag(mag, 1000);
        let minutos = cociente_mag(mag, 60000);
        proof {
            lemma_div_denominator(mag as int, 1000, 60);
            lemma_fundamental_div_mod(segundos as int, 60);
            lemma_mod_division_less_than_divisor(segundos as int, 60);
            assert(minutos as int == segundos as int / 60);
        }
        let resto_mag = segundos - minutos * 60;
        let minutos_signo: i64 = if neg {
            -(minutos as i64)
        } else {
            minutos as i64
        };
        let resto_signo: i64 = if neg {
            -(resto_mag as i64)
        } else {
            resto_mag as i64
        };
        proof {
            assert(minutos_signo as int == self.minutos());
            assert(resto_signo as int == self.segundos() - self.minutos() * 60);
        }
        let r = i64_a_texto(minutos_signo).concat(":").concat(
            i64_a_texto_dos(resto_signo).as_str(),
        );
        proof {
            assert(r@ =~= texto_m_s_tiempo(*self));
        }
        r
    }

    fn m(&self) -> (r: String)
        ensures
            r@ == texto_m(*self),
    {
        let (neg, mag) = particion(self.milisegundos);
        proof {
            lemma_div_trunc(self.milisegundos as int, 60000);
        }
        let minutos = cociente_mag(mag, 60000);
        let minutos_signo: i64 = if neg {
            -(minutos as i64)
        } else {
            minutos as i64
        };
        let r = i64_a_texto(minutos_signo).concat("m");
        proof {
            assert(r@ =~= texto_m(*self));
        }
        r
    }

    fn s_float(&self) -> (r: String)
        ensures
            r@ == texto_s_float(*self),
    {
        let (neg, mag) = particion(self.milisegundos);
        let entero = mag / 1000;
        let fraccion = mag % 1000;
        let con_fraccion = if fraccion == 0 {
            u64_a_texto(entero)
        } else if fraccion % 100 == 0 {
            u64_a_texto(entero).concat(".").concat(u64_a_texto(fraccion / 100).as_str())
        } else if fraccion % 10 == 0 {
            u64_a_texto(entero).concat(".").concat(i64_a_texto_dos((fraccion / 10) as i64).as_str())
        } else {
            let relleno: &str = if fraccion < 10 {
                "00"
            } else if fraccion < 100 {
                "0"
            } else {
                ""
            };
            let tres = String::from_str(relleno).concat(u64_a_texto(fraccion).as_str());
            proof {
                reveal_strlit("");
                assert(tres@ =~= texto_tres_digitos_nat(fraccion as nat));
            }
            u64_a_texto(entero).concat(".").concat(tres.as_str())
        };
        let cuerpo = if neg {
            String::from_str("-").concat(con_fraccion.as_str())
        } else {
            con_fraccion
        };
        proof {
            reveal_strlit("-");
            assert(cuerpo@ =~= texto_segundos_fraccion(self.milisegundos as int));
        }
        let ancho = cuerpo.as_str().unicode_len();
        let r = if ancho >= 3 {
            cuerpo
        } else if ancho == 2 {
            String::from_str(" ").concat(cuerpo.as_str())
        } else {
            String::from_str("  ").concat(cuerpo.as_str())
        };
        let r = r.concat(" seg.");
        proof {
            assert(r@ =~= texto_s_float(*self));
        }
        r
    }
}

} // verus!
