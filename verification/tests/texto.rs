use inventario::texto::{
    caracteres, concatenar, dividir_por, empieza_con_texto, entero_a_texto,
    entero_relleno, es_espacio_blanco, mismo_texto, recortar_caracteres, texto_de, unir_textos,
};

fn partes(s: &str, sep: char) -> Vec<String> {
    dividir_por(s, sep).into_iter().map(|v| v.into_iter().collect()).collect()
}

#[test]
fn caracteres_y_texto_de_ida_y_vuelta() {
    let c = caracteres("añb");
    assert_eq!(c, vec!['a', 'ñ', 'b']);
    assert_eq!(texto_de(&c), "añb");
}

#[test]
fn concatenar_une_en_orden() {
    assert_eq!(concatenar("ab", "cd"), "abcd");
    assert_eq!(concatenar("", ""), "");
}

#[test]
fn mismo_texto_compara_caracteres() {
    assert!(mismo_texto("admin", "admin"));
    assert!(!mismo_texto("admin", "Admin"));
    assert!(!mismo_texto("admin", "admin "));
    assert!(mismo_texto("", ""));
}

#[test]
fn empieza_con_prefijos() {
    assert!(empieza_con_texto("Bearer abc", "Bearer "));
    assert!(!empieza_con_texto("Bear", "Bearer "));
    assert!(empieza_con_texto("x", ""));
}

#[test]
fn dividir_como_split() {
    assert_eq!(partes("a,b,,c", ','), vec!["a", "b", "", "c"]);
    assert_eq!(partes("", ','), vec![""]);
    assert_eq!(partes(",", ','), vec!["", ""]);
    let esperado: Vec<String> = "x, y ,z".split(',').map(String::from).collect();
    assert_eq!(partes("x, y ,z", ','), esperado);
}

#[test]
fn recortar_como_trim() {
    for s in ["  a b  ", "\t\nx\u{3000}", "", "   ", "\u{85}k\u{a0}", "sin"] {
        let r: String = recortar_caracteres(&caracteres(s)).into_iter().collect();
        assert_eq!(r, s.trim());
    }
}

#[test]
fn espacio_blanco_como_std() {
    for u in 0u32..0x3100 {
        if let Some(c) = char::from_u32(u) {
            assert_eq!(es_espacio_blanco(c), c.is_whitespace(), "{:?}", c);
        }
    }
}

#[test]
fn unir_como_join() {
    let l = vec!["a".to_string(), "b".to_string(), "c".to_string()];
    assert_eq!(unir_textos(&l, ","), "a,b,c");
    assert_eq!(unir_textos(&vec![], ","), "");
    assert_eq!(unir_textos(&vec!["solo".to_string()], ", "), "solo");
}

#[test]
fn enteros_en_decimal() {
    for n in [0i64, 7, -7, 10, 12345, -900, i64::MAX, i64::MIN] {
        assert_eq!(entero_a_texto(n), format!("{}", n));
    }
}

#[test]
fn enteros_con_ceros() {
    for (n, w) in [(5i64, 4usize), (2024, 4), (-5, 4), (123, 2), (7, 2), (0, 0), (-12345, 3), (i64::MIN, 25)] {
        assert_eq!(entero_relleno(n, w), format!("{:0w$}", n, w = w));
    }
}
