//! Text helpers shared by the whole library: character sequences, equality,
//! splitting, joining, trimming and decimal formatting, each with its model
//! over `Seq<char>`.
use vstd::prelude::*;

verus! {

// ---------------------------------------------------------------------------
// Models
// ---------------------------------------------------------------------------

/// Unicode `White_Space`, the property that `char::is_whitespace` tests.
pub open spec fn es_espacio(c: char) -> bool {
    let u = c as u32;
    ||| 0x09 <= u <= 0x0d
    ||| u == 0x20
    ||| u == 0x85
    ||| u == 0xa0
    ||| u == 0x1680
    ||| 0x2000 <= u <= 0x200a
    ||| u == 0x2028
    ||| u == 0x2029
    ||| u == 0x202f
    ||| u == 0x205f
    ||| u == 0x3000
}

/// `s` without its leading white space.
pub open spec fn sin_espacios_inicio(s: Seq<char>) -> Seq<char>
    decreases s.len(),
{
    if s.len() > 0 && es_espacio(s[0]) {
        sin_espacios_inicio(s.drop_first())
    } else {
        s
    }
}

/// `s` without its trailing white space.
pub open spec fn sin_espacios_fin(s: Seq<char>) -> Seq<char>
    decreases s.len(),
{
    if s.len() > 0 && es_espacio(s.last()) {
        sin_espacios_fin(s.drop_last())
    } else {
        s
    }
}

/// What `str::trim` leaves of `s`.
pub open spec fn recortar(s: Seq<char>) -> Seq<char> {
    sin_espacios_fin(sin_espacios_inicio(s))
}

/// The pieces that `str::split(sep)` yields from `s`, in order.
/// An empty text gives one empty piece.
pub open spec fn dividir(s: Seq<char>, sep: char) -> Seq<Seq<char>>
    decreases s.len(),
{
    if s.len() == 0 {
        seq![Seq::<char>::empty()]
    } else {
        let previo = dividir(s.drop_last(), sep);
        if s.last() == sep {
            previo.push(Seq::<char>::empty())
        } else {
            previo.update(previo.len() - 1, previo.last().push(s.last()))
        }
    }
}

/// The pieces of `l` joined with `sep` between each two of them, as `join` does.
pub open spec fn unir(l: Seq<Seq<char>>, sep: Seq<char>) -> Seq<char>
    decreases l.len(),
{
    if l.len() == 0 {
        Seq::<char>::empty()
    } else if l.len() == 1 {
        l[0]
    } else {
        unir(l.drop_last(), sep) + sep + l.last()
    }
}

/// `s` begins with `p`.
pub open spec fn empieza_con(s: Seq<char>, p: Seq<char>) -> bool {
    p.len() <= s.len() && s.take(p.len() as int) == p
}

/// The character of the decimal digit `d`.
pub open spec fn digito(d: nat) -> char {
    ((48 + d) as u8) as char
}

/// The decimal digits of `n`, most significant first, without leading zeros.
pub open spec fn digitos(n: nat) -> Seq<char>
    decreases n,
{
    if n < 10 {
        seq![digito(n)]
    } else {
        digitos(n / 10).push(digito(n % 10))
    }
}

/// `"{}"` applied to the integer `n`.
pub open spec fn decimal(n: int) -> Seq<char> {
    if n < 0 {
        seq!['-'] + digitos((-n) as nat)
    } else {
        digitos(n as nat)
    }
}

/// `n` zeros.
pub open spec fn ceros(n: nat) -> Seq<char> {
    Seq::new(n, |i: int| '0')
}

/// `s` with zeros in front until it is `ancho` characters long.
pub open spec fn rellenar_ceros(s: Seq<char>, ancho: nat) -> Seq<char> {
    if s.len() < ancho {
        ceros((ancho - s.len()) as nat) + s
    } else {
        s
    }
}

/// `"{:0w$}"` applied to the integer `n`: the sign counts in the width.
pub open spec fn decimal_relleno(n: int, ancho: nat) -> Seq<char> {
    if n < 0 {
        seq!['-'] + rellenar_ceros(digitos((-n) as nat), if ancho > 0 { (ancho - 1) as nat } else { 0 })
    } else {
        rellenar_ceros(digitos(n as nat), ancho)
    }
}

// ---------------------------------------------------------------------------
// Lemmas
// ---------------------------------------------------------------------------

proof fn lema_dividir_no_vacio(s: Seq<char>, sep: char)
    ensures
        dividir(s, sep).len() >= 1,
    decreases s.len(),
{
    if s.len() > 0 {
        lema_dividir_no_vacio(s.drop_last(), sep);
    }
}

/// Joining pieces none of which holds `sep` and splitting the result by `sep`
/// gives the pieces back.
pub proof fn lema_dividir_unir(l: Seq<Seq<char>>, sep: char)
    requires
        l.len() >= 1,
        forall|k: int, j: int| 0 <= k < l.len() && 0 <= j < l[k].len() ==> #[trigger] l[k][j] != sep,
    ensures
        dividir(unir(l, seq![sep]), sep) == l,
    decreases l.len(),
{
    if l.len() == 1 {
        lema_dividir_sin_separador(l[0], sep);
        assert(dividir(l[0], sep) =~= l);
    } else {
        let previo = l.drop_last();
        assert forall|k: int, j: int| 0 <= k < previo.len() && 0 <= j < previo[k].len() implies
            #[trigger] previo[k][j] != sep by {
            assert(previo[k] == l[k]);
        }
        lema_dividir_unir(previo, sep);
        let u = unir(previo, seq![sep]);
        assert forall|j: int| 0 <= j < l.last().len() implies #[trigger] l.last()[j] != sep by {
            assert(l.last()[j] == l[l.len() - 1][j]);
        }
        lema_dividir_anexo(u + seq![sep], l.last(), sep);
        assert((u + seq![sep]).drop_last() =~= u);
        assert(dividir(u + seq![sep], sep) =~= previo.push(Seq::<char>::empty()));
        assert(previo.push(Seq::<char>::empty()).update(previo.len() as int, l.last()) =~= l);
    }
}

/// A text without `sep` splits into itself alone.
proof fn lema_dividir_sin_separador(s: Seq<char>, sep: char)
    requires
        forall|j: int| 0 <= j < s.len() ==> #[trigger] s[j] != sep,
    ensures
        dividir(s, sep) == seq![s],
    decreases s.len(),
{
    if s.len() > 0 {
        let p = s.drop_last();
        assert forall|j: int| 0 <= j < p.len() implies #[trigger] p[j] != sep by {
            assert(p[j] == s[j]);
        }
        lema_dividir_sin_separador(p, sep);
        assert(s[s.len() - 1] != sep);
        assert(s.last() == s[s.len() - 1]);
        assert(seq![p].last() == p);
        assert(p.push(s.last()) =~= s);
        assert(seq![p].update(0, p.push(s.last())) =~= seq![s]);
    } else {
        assert(s =~= Seq::<char>::empty());
    }
}

/// Appending a piece without `sep` extends the last piece of the split.
proof fn lema_dividir_anexo(a: Seq<char>, b: Seq<char>, sep: char)
    requires
        forall|j: int| 0 <= j < b.len() ==> #[trigger] b[j] != sep,
    ensures
        dividir(a, sep).len() >= 1,
        dividir(a + b, sep) == dividir(a, sep).update(
            dividir(a, sep).len() - 1,
            dividir(a, sep).last() + b,
        ),
    decreases b.len(),
{
    lema_dividir_no_vacio(a, sep);
    if b.len() == 0 {
        assert(a + b =~= a);
        assert(dividir(a, sep).last() + b =~= dividir(a, sep).last());
        assert(dividir(a, sep).update(dividir(a, sep).len() - 1, dividir(a, sep).last())
            =~= dividir(a, sep));
    } else {
        let bp = b.drop_last();
        assert forall|j: int| 0 <= j < bp.len() implies #[trigger] bp[j] != sep by {
            assert(bp[j] == b[j]);
        }
        lema_dividir_anexo(a, bp, sep);
        assert((a + b).drop_last() =~= a + bp);
        assert((a + b).last() == b[b.len() - 1]);
        let d = dividir(a, sep);
        assert(d.last() + bp + seq![b.last()] =~= d.last() + b);
        assert((d.last() + bp).push(b.last()) =~= d.last() + b);
        assert(d.update(d.len() - 1, d.last() + bp).update(d.len() - 1, d.last() + b)
            =~= d.update(d.len() - 1, d.last() + b));
    }
}

// ---------------------------------------------------------------------------
// Executable helpers
// ---------------------------------------------------------------------------

/// `String::push`: appends one character.
#[verifier::external_body]
pub(crate) fn agregar_caracter(s: &mut String, c: char)
    ensures
        final(s)@ == old(s)@.push(c),
{
    s.push(c);
}

/// The characters of a text, in order.
pub fn caracteres(s: &str) -> (r: Vec<char>)
    ensures
        r@ == s@,
{
    let mut r: Vec<char> = Vec::new();
    for c in it: s.chars()
        invariant
            r@ == it.seq().take(it.index() as int),
            it.seq() == s@,
    {
        r.push(c);
    }
    r
}

/// A text made of the characters of `v`, in order.
pub fn texto_de(v: &[char]) -> (r: String)
    ensures
        r@ == v@,
{
    let mut r = String::new();
    let mut i: usize = 0;
    while i < v.len()
        invariant
            i <= v@.len(),
            r@ == v@.take(i as int),
        decreases v.len() - i,
    {
        agregar_caracter(&mut r, v[i]);
        i = i + 1;
    }
    assert(v@.take(v@.len() as int) =~= v@);
    r
}

/// A copy of a text.
pub fn copiar(s: &str) -> (r: String)
    ensures
        r@ == s@,
{
    s.to_owned()
}

/// The concatenation of two texts.
pub fn concatenar(a: &str, b: &str) -> (r: String)
    ensures
        r@ == a@ + b@,
{
    let mut r = a.to_owned();
    r.append(b);
    r
}

/// Whether two character sequences are equal.
pub fn mismos_caracteres(a: &[char], b: &[char]) -> (r: bool)
    ensures
        r == (a@ == b@),
{
    if a.len() != b.len() {
        return false;
    }
    let mut i: usize = 0;
    while i < a.len()
        invariant
            a@.len() == b@.len(),
            i <= a@.len(),
            a@.take(i as int) == b@.take(i as int),
        decreases a.len() - i,
    {
        if a[i] != b[i] {
            assert(a@[i as int] != b@[i as int]);
            return false;
        }
        assert(a@.take(i + 1) =~= a@.take(i as int).push(a@[i as int]));
        assert(b@.take(i + 1) =~= b@.take(i as int).push(b@[i as int]));
        i = i + 1;
    }
    assert(a@ =~= a@.take(a@.len() as int));
    assert(b@ =~= b@.take(b@.len() as int));
    true
}

/// Whether two texts are equal.
pub fn mismo_texto(a: &str, b: &str) -> (r: bool)
    ensures
        r == (a@ == b@),
{
    let x = caracteres(a);
    let y = caracteres(b);
    mismos_caracteres(x.as_slice(), y.as_slice())
}

/// Whether `s` begins with `p`.
pub fn empieza_con_texto(s: &str, p: &str) -> (r: bool)
    ensures
        r == empieza_con(s@, p@),
{
    let x = caracteres(s);
    let y = caracteres(p);
    if y.len() > x.len() {
        return false;
    }
    let mut i: usize = 0;
    while i < y.len()
        invariant
            y@.len() <= x@.len(),
            x@ == s@,
            y@ == p@,
            i <= y@.len(),
            x@.take(i as int) == y@.take(i as int),
        decreases y.len() - i,
    {
        if x[i] != y[i] {
            assert(x@.take(y@.len() as int)[i as int] != y@[i as int]);
            return false;
        }
        assert(x@.take(i + 1) =~= x@.take(i as int).push(x@[i as int]));
        assert(y@.take(i + 1) =~= y@.take(i as int).push(y@[i as int]));
        i = i + 1;
    }
    assert(y@ =~= y@.take(y@.len() as int));
    true
}

/// The pieces of `s` between the occurrences of `sep`, as `str::split` gives them.
pub fn dividir_por(s: &str, sep: char) -> (r: Vec<Vec<char>>)
    ensures
        r@.len() == dividir(s@, sep).len(),
        forall|k: int| 0 <= k < r@.len() ==> #[trigger] r@[k]@ == dividir(s@, sep)[k],
{
    let x = caracteres(s);
    let mut hechas: Vec<Vec<char>> = Vec::new();
    let mut actual: Vec<char> = Vec::new();
    let mut i: usize = 0;
    while i < x.len()
        invariant
            x@ == s@,
            i <= x@.len(),
            dividir(x@.take(i as int), sep).len() == hechas@.len() + 1,
            forall|k: int|
                0 <= k < hechas@.len() ==> #[trigger] hechas@[k]@ == dividir(
                    x@.take(i as int),
                    sep,
                )[k],
            actual@ == dividir(x@.take(i as int), sep).last(),
        decreases x.len() - i,
    {
        let c = x[i];
        let ghost antes = x@.take(i as int);
        assert(x@.take(i + 1).drop_last() =~= antes);
        assert(x@.take(i + 1).last() == c);
        if c == sep {
            hechas.push(actual);
            actual = Vec::new();
        } else {
            actual.push(c);
        }
        i = i + 1;
    }
    assert(x@.take(x@.len() as int) =~= x@);
    hechas.push(actual);
    hechas
}

/// The characters of `v` without leading and trailing white space.
pub fn recortar_caracteres(v: &[char]) -> (r: Vec<char>)
    ensures
        r@ == recortar(v@),
{
    let mut i: usize = 0;
    assert(v@.skip(0) =~= v@);
    while i < v.len() && es_espacio_blanco(v[i])
        invariant
            i <= v@.len(),
            sin_espacios_inicio(v@) == sin_espacios_inicio(v@.skip(i as int)),
        decreases v.len() - i,
    {
        assert(v@.skip(i as int).drop_first() =~= v@.skip(i + 1));
        i = i + 1;
    }
    let ghost inicio = v@.skip(i as int);
    assert(sin_espacios_inicio(v@) == inicio);
    let mut j: usize = v.len();
    while j > i && es_espacio_blanco(v[j - 1])
        invariant
            i <= j <= v@.len(),
            inicio == v@.skip(i as int),
            sin_espacios_fin(inicio) == sin_espacios_fin(v@.subrange(i as int, j as int)),
        decreases j - i,
    {
        assert(v@.subrange(i as int, j as int).drop_last() =~= v@.subrange(i as int, j - 1));
        j = j - 1;
    }
    assert(sin_espacios_fin(v@.subrange(i as int, j as int)) == v@.subrange(i as int, j as int));
    let mut r: Vec<char> = Vec::new();
    let mut k: usize = i;
    while k < j
        invariant
            i <= k <= j <= v@.len(),
            r@ == v@.subrange(i as int, k as int),
        decreases j - k,
    {
        r.push(v[k]);
        assert(v@.subrange(i as int, k + 1) =~= v@.subrange(i as int, k as int).push(v@[k as int]));
        k = k + 1;
    }
    assert(inicio.skip(0) =~= inicio);
    r
}

/// `char::is_whitespace`.
pub fn es_espacio_blanco(c: char) -> (r: bool)
    ensures
        r == es_espacio(c),
{
    let u = c as u32;
    (0x09 <= u && u <= 0x0d) || u == 0x20 || u == 0x85 || u == 0xa0 || u == 0x1680 || (0x2000 <= u
        && u <= 0x200a) || u == 0x2028 || u == 0x2029 || u == 0x202f || u == 0x205f || u == 0x3000
}

/// The pieces of `l` joined with `sep`, as `join` does.
pub fn unir_textos(l: &Vec<String>, sep: &str) -> (r: String)
    ensures
        r@ == unir(l@.map_values(|e: String| e@), sep@),
{
    let ghost vistas = l@.map_values(|e: String| e@);
    let mut r = String::new();
    let mut i: usize = 0;
    while i < l.len()
        invariant
            i <= l@.len(),
            vistas == l@.map_values(|e: String| e@),
            r@ == unir(vistas.take(i as int), sep@),
        decreases l.len() - i,
    {
        assert(vistas.take(i + 1).drop_last() =~= vistas.take(i as int));
        assert(vistas.take(i + 1).last() == l@[i as int]@);
        if i > 0 {
            r.append(sep);
        }
        r.append(l[i].as_str());
        i = i + 1;
    }
    assert(vistas.take(l@.len() as int) =~= vistas);
    r
}

/// The decimal digits of `n`.
pub fn digitos_de(n: u64) -> (r: Vec<char>)
    ensures
        r@ == digitos(n as nat),
{
    let mut r: Vec<char> = Vec::new();
    let mut m: u64 = n;
    if m == 0 {
        r.push('0');
        assert(r@ =~= digitos(0));
        return r;
    }
    while m > 0
        invariant
            m > 0 ==> digitos(n as nat) == digitos(m as nat) + r@,
            m == 0 ==> digitos(n as nat) == r@,
        decreases m,
    {
        let d = (m % 10) as u8;
        let c = (48u8 + d) as char;
        assert(c == digito((m % 10) as nat));
        r.insert(0, c);
        if m >= 10 {
            assert(digitos(m as nat) == digitos((m / 10) as nat).push(digito((m % 10) as nat)));
            assert(digitos((m / 10) as nat) + r@ =~= digitos((m / 10) as nat).push(
                digito((m % 10) as nat),
            ) + r@.drop_first());
        } else {
            assert(digitos(m as nat) == seq![digito(m as nat)]);
            assert(r@ =~= seq![digito(m as nat)] + r@.drop_first());
        }
        m = m / 10;
    }
    r
}

/// `"{}"` applied to `n`.
pub fn entero_a_texto(n: i64) -> (r: String)
    ensures
        r@ == decimal(n as int),
{
    if n < 0 {
        let magnitud: u64 = if n == i64::MIN {
            9223372036854775808u64
        } else {
            (-n) as u64
        };
        let mut v: Vec<char> = Vec::new();
        v.push('-');
        let mut d = digitos_de(magnitud);
        v.append(&mut d);
        assert(v@ =~= seq!['-'] + digitos((-n) as nat));
        texto_de(v.as_slice())
    } else {
        let d = digitos_de(n as u64);
        texto_de(d.as_slice())
    }
}

/// `v` with zeros in front until it is `ancho` characters long.
fn rellenar(v: &Vec<char>, ancho: usize) -> (r: Vec<char>)
    ensures
        r@ == rellenar_ceros(v@, ancho as nat),
{
    let mut r: Vec<char> = Vec::new();
    if v.len() < ancho {
        let faltan = ancho - v.len();
        let mut k: usize = 0;
        while k < faltan
            invariant
                k <= faltan,
                r@ == ceros(k as nat),
            decreases faltan - k,
        {
            r.push('0');
            assert(r@ =~= ceros((k + 1) as nat));
            k = k + 1;
        }
    }
    let mut i: usize = 0;
    let ghost base = r@;
    while i < v.len()
        invariant
            i <= v@.len(),
            r@ == base + v@.take(i as int),
        decreases v.len() - i,
    {
        r.push(v[i]);
        assert(v@.take(i + 1) =~= v@.take(i as int).push(v@[i as int]));
        i = i + 1;
    }
    assert(v@.take(v@.len() as int) =~= v@);
    assert(v@.len() >= ancho ==> base =~= Seq::<char>::empty());
    r
}

/// `"{:0ancho$}"` applied to `n`.
pub fn entero_relleno(n: i64, ancho: usize) -> (r: String)
    ensures
        r@ == decimal_relleno(n as int, ancho as nat),
{
    if n < 0 {
        let magnitud: u64 = if n == i64::MIN {
            9223372036854775808u64
        } else {
            (-n) as u64
        };
        let d = digitos_de(magnitud);
        let resto = if ancho > 0 { ancho - 1 } else { 0 };
        let mut p = rellenar(&d, resto);
        let mut v: Vec<char> = Vec::new();
        v.push('-');
        v.append(&mut p);
        assert(v@ =~= seq!['-'] + rellenar_ceros(digitos((-n) as nat), resto as nat));
        texto_de(v.as_slice())
    } else {
        let d = digitos_de(n as u64);
        let p = rellenar(&d, ancho);
        texto_de(p.as_slice())
    }
}

} // verus!
