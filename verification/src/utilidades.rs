//! Semantic-version comparison: a version text is split on `'.'` into at most
//! three segments, each segment is read as an unsigned number (zero when it
//! is not one), and versions are compared segment by segment.

use vstd::prelude::*;

verus! {

/// Whether a character is a decimal digit.
pub open spec fn es_digito(c: char) -> bool {
    '0' as int <= c as int <= '9' as int
}

/// The value of a decimal digit.
pub open spec fn valor_digito(c: char) -> int {
    c as int - '0' as int
}

/// The number written by a digit sequence, most significant digit first.
pub open spec fn valor_digitos(s: Seq<char>) -> int
    decreases s.len(),
{
    if s.len() == 0 {
        0
    } else {
        valor_digitos(s.drop_last()) * 10 + valor_digito(s.last())
    }
}

/// Whether a sequence is one or more decimal digits and nothing else.
pub open spec fn solo_digitos(s: Seq<char>) -> bool {
    s.len() > 0 && forall|i: int| 0 <= i < s.len() ==> es_digito(#[trigger] s[i])
}

/// The digits of a segment: an optional leading `'+'` is accepted and
/// dropped, as the standard unsigned-number parser accepts it.
pub open spec fn digitos_segmento(s: Seq<char>) -> Seq<char> {
    if s.len() > 0 && s[0] == '+' {
        s.drop_first()
    } else {
        s
    }
}

/// Whether a segment is a well-formed unsigned number that fits in 32 bits.
pub open spec fn segmento_valido(s: Seq<char>) -> bool {
    solo_digitos(digitos_segmento(s)) && valor_digitos(digitos_segmento(s)) <= u32::MAX as int
}

/// The number a version segment stands for: its digits' value when it is a
/// well-formed number in range, and zero otherwise.
pub open spec fn valor_segmento(s: Seq<char>) -> u32 {
    if segmento_valido(s) {
        valor_digitos(digitos_segmento(s)) as u32
    } else {
        0u32
    }
}

/// Index of the first `'.'`, or the length when there is none.
pub open spec fn primer_punto(s: Seq<char>) -> int
    decreases s.len(),
{
    if s.len() == 0 {
        0
    } else if s[0] == '.' {
        0
    } else {
        1 + primer_punto(s.drop_first())
    }
}

/// The part of a version text before its first `'.'` (all of it when there is
/// none).
pub open spec fn parte_antes(s: Seq<char>) -> Seq<char> {
    s.take(primer_punto(s))
}

/// The part of a version text after its first `'.'` (empty when there is
/// none, as a missing segment reads as an empty one).
pub open spec fn parte_despues(s: Seq<char>) -> Seq<char> {
    if primer_punto(s) < s.len() {
        s.skip(primer_punto(s) + 1)
    } else {
        Seq::empty()
    }
}

/// The three numeric segments of a version text: the values of the parts
/// before the first dot, between the first and second dots, and between the
/// second and third dots; anything after a third dot is ignored.
pub open spec fn segmentos_version(s: Seq<char>) -> (u32, u32, u32) {
    let resto1 = parte_despues(s);
    let resto2 = parte_despues(resto1);
    (valor_segmento(parte_antes(s)), valor_segmento(parte_antes(resto1)), valor_segmento(
        parte_antes(resto2),
    ))
}

/// Whether the new version is strictly above the current one: false when
/// either text is empty or the two texts are equal, and otherwise a
/// segment-by-segment comparison, most significant segment first.
pub open spec fn version_superior_spec(nueva: Seq<char>, actual: Seq<char>) -> bool {
    if nueva.len() == 0 || actual.len() == 0 || nueva == actual {
        false
    } else {
        let (na, nb, nc) = segmentos_version(nueva);
        let (aa, ab, ac) = segmentos_version(actual);
        na > aa || (na == aa && nb > ab) || (na == aa && nb == ab && nc > ac)
    }
}

/// The first dot stands within the text, nothing before it is a dot, and it
/// is a dot itself when it is not the end.
proof fn lemma_primer_punto(s: Seq<char>)
    ensures
        0 <= primer_punto(s) <= s.len(),
        forall|j: int| 0 <= j < primer_punto(s) ==> s[j] != '.',
        primer_punto(s) < s.len() ==> s[primer_punto(s)] == '.',
    decreases s.len(),
{
    if s.len() == 0 {
    } else if s[0] == '.' {
    } else {
        lemma_primer_punto(s.drop_first());
        assert forall|j: int| 0 <= j < primer_punto(s) implies s[j] != '.' by {
            if j > 0 {
                assert(s.drop_first()[j - 1] != '.');
            }
        }
    }
}

/// A digit sequence's value is not negative.
proof fn lemma_valor_digitos_no_negativo(s: Seq<char>)
    requires
        forall|i: int| 0 <= i < s.len() ==> es_digito(#[trigger] s[i]),
    ensures
        valor_digitos(s) >= 0,
    decreases s.len(),
{
    if s.len() > 0 {
        lemma_valor_digitos_no_negativo(s.drop_last());
    }
}

/// Extending a digit sequence never lowers its value.
proof fn lemma_valor_digitos_crece(s: Seq<char>, i: int)
    requires
        0 <= i <= s.len(),
        forall|j: int| 0 <= j < s.len() ==> es_digito(#[trigger] s[j]),
    ensures
        valor_digitos(s) >= valor_digitos(s.take(i)),
    decreases s.len() - i,
{
    if i == s.len() {
        assert(s.take(i) =~= s);
    } else {
        lemma_valor_digitos_crece(s, i + 1);
        assert(s.take(i + 1).drop_last() =~= s.take(i));
        assert(forall|j: int| 0 <= j < s.take(i + 1).len() ==> es_digito(
            #[trigger] s.take(i + 1)[j],
        ));
        lemma_valor_digitos_no_negativo(s.take(i));
        assert(valor_digitos(s.take(i + 1)) == valor_digitos(s.take(i)) * 10 + valor_digito(
            s.take(i + 1).last(),
        ));
    }
}

/// Index of the first `'.'` of the text, or its length when there is none.
fn posicion_punto(s: &str) -> (p: usize)
    ensures
        p as int == primer_punto(s@),
{
    let largo = s.unicode_len();
    let mut i: usize = 0;
    while i < largo
        invariant
            0 <= i <= largo,
            largo == s@.len(),
            forall|j: int| 0 <= j < i ==> s@[j] != '.',
        decreases largo - i,
    {
        if s.get_char(i) == '.' {
            proof {
                lemma_primer_punto(s@);
                if primer_punto(s@) < i {
                    assert(s@[primer_punto(s@)] == '.');
                }
                if primer_punto(s@) > i {
                    assert(s@[i as int] != '.');
                }
            }
            return i;
        }
        i += 1;
    }
    proof {
        lemma_primer_punto(s@);
        if primer_punto(s@) < largo {
            assert(s@[primer_punto(s@)] == '.');
        }
    }
    i
}

/// Reads a version segment as an unsigned number: the digits' value when the
/// whole segment is an optional `'+'` followed by digits only and the value
/// fits in 32 bits, and zero otherwise.
fn analizar_segmento(s: &str) -> (r: u32)
    ensures
        r == valor_segmento(s@),
{
    let largo = s.unicode_len();
    let desde: usize = if largo > 0 && s.get_char(0) == '+' {
        1
    } else {
        0
    };
    let ghost digitos = digitos_segmento(s@);
    proof {
        assert(digitos =~= s@.subrange(desde as int, largo as int));
    }
    if desde == largo {
        return 0;
    }
    let mut acc: u64 = 0;
    let mut i: usize = desde;
    while i < largo
        invariant
            desde <= i <= largo,
            largo == s@.len(),
            digitos == digitos_segmento(s@),
            digitos =~= s@.subrange(desde as int, largo as int),
            desde < largo,
            forall|j: int| desde <= j < i ==> es_digito(#[trigger] s@[j]),
            acc as int == valor_digitos(s@.subrange(desde as int, i as int)),
            acc <= u32::MAX,
        decreases largo - i,
    {
        let c = s.get_char(i);
        let cv = c as u32;
        if cv < 48 || cv > 57 {
            proof {
                assert(c as int == cv as int);
                assert(digitos[i - desde as int] == s@[i as int]);
                assert(!es_digito(digitos[i - desde as int]));
                assert(!solo_digitos(digitos));
            }
            return 0;
        }
        let d: u64 = (cv - 48) as u64;
        proof {
            assert(c as int == cv as int);
            assert(es_digito(s@[i as int]));
        }
        acc = acc * 10 + d;
        proof {
            assert(s@.subrange(desde as int, i + 1).drop_last() =~= s@.subrange(
                desde as int,
                i as int,
            ));
            assert(s@.subrange(desde as int, i + 1).last() == s@[i as int]);
            assert(acc as int == valor_digitos(s@.subrange(desde as int, i + 1)));
        }
        i += 1;
        if acc > 0xffff_ffff {
            proof {
                if solo_digitos(digitos) {
                    assert(digitos.take(i - desde as int) =~= s@.subrange(
                        desde as int,
                        i as int,
                    ));
                    lemma_valor_digitos_crece(digitos, i - desde as int);
                    assert(valor_digitos(digitos) > u32::MAX as int);
                }
            }
            return 0;
        }
    }
    proof {
        assert forall|k: int| 0 <= k < digitos.len() implies es_digito(#[trigger] digitos[k]) by {
            assert(digitos[k] == s@[k + desde]);
        }
        assert(solo_digitos(digitos));
        assert(acc as int == valor_digitos(digitos));
    }
    acc as u32
}

/// Whether two texts hold the same characters.
fn textos_iguales(a: &str, b: &str) -> (r: bool)
    ensures
        r == (a@ == b@),
{
    let la = a.unicode_len();
    let lb = b.unicode_len();
    if la != lb {
        return false;
    }
    let mut i: usize = 0;
    while i < la
        invariant
            0 <= i <= la,
            la == a@.len(),
            la == b@.len(),
            forall|j: int| 0 <= j < i ==> a@[j] == b@[j],
        decreases la - i,
    {
        if a.get_char(i) != b.get_char(i) {
            return false;
        }
        i += 1;
    }
    proof {
        assert(a@ =~= b@);
    }
    true
}

/// The three numeric segments of a version text.
pub struct SegmentosVersionado {
    pub a: u32,
    pub b: u32,
    pub c: u32,
}

/// Splits a version text on dots and reads its first three segments as
/// numbers, a missing or malformed segment reading as zero.
pub fn versionado_a_segmentos(version: &str) -> (r: SegmentosVersionado)
    ensures
        (r.a, r.b, r.c) == segmentos_version(version@),
{
    proof {
        lemma_primer_punto(version@);
        reveal_strlit("");
    }
    let largo = version.unicode_len();
    let p1 = posicion_punto(version);
    let s1 = version.substring_char(0, p1);
    let resto1: &str = if p1 < largo {
        version.substring_char(p1 + 1, largo)
    } else {
        ""
    };
    proof {
        assert(s1@ =~= parte_antes(version@));
        assert(resto1@ =~= parte_despues(version@));
        lemma_primer_punto(resto1@);
    }
    let largo1 = resto1.unicode_len();
    let p2 = posicion_punto(resto1);
    let s2 = resto1.substring_char(0, p2);
    let resto2: &str = if p2 < largo1 {
        resto1.substring_char(p2 + 1, largo1)
    } else {
        ""
    };
    proof {
        assert(s2@ =~= parte_antes(resto1@));
        assert(resto2@ =~= parte_despues(resto1@));
        lemma_primer_punto(resto2@);
    }
    let p3 = posicion_punto(resto2);
    let s3 = resto2.substring_char(0, p3);
    proof {
        assert(s3@ =~= parte_antes(resto2@));
    }
    SegmentosVersionado { a: analizar_segmento(s1), b: analizar_segmento(s2), c: analizar_segmento(s3) }
}

/// Whether the new version text is strictly above the current one.
pub fn version_superior(nueva: &str, actual: &str) -> (r: bool)
    ensures
        r == version_superior_spec(nueva@, actual@),
{
    if nueva.is_empty() || actual.is_empty() || textos_iguales(actual, nueva) {
        return false;
    }
    let nueva = versionado_a_segmentos(nueva);
    let actual = versionado_a_segmentos(actual);
    if nueva.a > actual.a {
        return true;
    }
    if nueva.a == actual.a && nueva.b > actual.b {
        return true;
    }
    if nueva.a == actual.a && nueva.b == actual.b && nueva.c > actual.c {
        return true;
    }
    false
}

} // verus!
