use duden::{
    Definition, DefinitionSource, Meaning, MeaningSource, ParseError, Queries, SenseSource,
    SimpleMeaning, Tuple, TupleSource,
};
use scraper::Html;

fn frags(parts: &[&str]) -> Vec<String> {
    parts.iter().map(|s| s.to_string()).collect()
}

fn sense(text: &str) -> SenseSource {
    SenseSource { text: Some(frags(&[text])), note: None }
}

fn page(body: &str) -> Html {
    Html::parse_document(&format!("<html><body>{body}</body></html>"))
}

#[test]
fn test_parse_tuple() {
    let html = r#"
            <dl class="tuple">
                <dt class="tuple__key">Gebrauch</dt>
                <dd class="tuple__val">Chemie</dd>
            </dl>
        "#;

    let fragment = Html::parse_fragment(html);
    let root = fragment.root_element();
    let queries = Queries::compile().unwrap();

    let tuple = Tuple::parse(&root, &queries).unwrap();
    assert_eq!(tuple.key, "Gebrauch");
    assert_eq!(tuple.render(), "Gebrauch\nChemie");
}

#[test]
fn tuple_without_key_or_value() {
    let no_key = TupleSource { key: None, val: Some(frags(&["v"])) };
    assert!(matches!(Tuple::from_source(no_key), Err(ParseError::MissingKey)));
    let no_val = TupleSource { key: Some(frags(&["k"])), val: None };
    assert!(matches!(Tuple::from_source(no_val), Err(ParseError::MissingValue)));
}

#[test]
fn render_fixture() {
    let d = Definition::new(
        "Beispiel".to_string(),
        vec![Meaning::Simple(SimpleMeaning::new("ein Exempel".to_string()))],
    );
    assert_eq!(d.render(), "\x1b[1mBeispiel\x1b[m\n\n1) ein Exempel\n");
}

#[test]
fn render_fixture_from_source() {
    let src = DefinitionSource {
        title: Some(frags(&["Beispiel"])),
        meanings: vec![MeaningSource { own: sense("ein Exempel"), sub_items: Vec::new() }],
        singleton: None,
    };
    let d = Definition::from_source(&src).unwrap();
    assert_eq!(d.title(), "Beispiel");
    assert_eq!(d.render(), "\x1b[1mBeispiel\x1b[m\n\n1) ein Exempel\n");
}

#[test]
fn singleton_fallback_yields_one_simple_meaning() {
    let p = page(
        r#"<h1> Bei&shy;spiel </h1>
        <div id="bedeutung"><p> ein Exempel </p></div>"#,
    );
    let queries = Queries::compile().unwrap();
    let d = Definition::parse(&p, &queries).unwrap();
    assert_eq!(d.meanings().len(), 1);
    match &d.meanings()[0] {
        Meaning::Simple(s) => {
            assert_eq!(s.text, "ein Exempel");
            assert!(s.examples.is_none());
        }
        Meaning::Complex(_) => panic!("expected a single sense"),
    }
    assert_eq!(d.render(), "\x1b[1mBeispiel\x1b[m\n\n1) ein Exempel\n");
}

#[test]
fn container_without_sub_senses_is_simple() {
    let p = page(
        r#"<h1>Haus</h1>
        <div id="bedeutungen"><ol>
          <li class="enumeration__item"><div class="enumeration__text">Gebäude</div></li>
        </ol></div>"#,
    );
    let queries = Queries::compile().unwrap();
    let d = Definition::parse(&p, &queries).unwrap();
    assert_eq!(d.meanings().len(), 1);
    assert!(matches!(&d.meanings()[0], Meaning::Simple(s) if s.text == "Gebäude"));
}

#[test]
fn enumerated_page_with_sub_senses_and_examples() {
    let p = page(
        r#"<h1>Bank</h1>
        <div id="bedeutungen"><ol>
          <li class="enumeration__item">
            <div class="enumeration__text">Sitzgelegenheit</div>
            <dl class="note"><ul><li> eine Bank im Park </li></ul></dl>
          </li>
          <li class="enumeration__item">
            <ol>
              <li class="enumeration__sub-item"><div class="enumeration__text">Geldinstitut</div>
                <dl class="note"><ul><li>zur Bank gehen</li><li>die Bank
                  wechseln</li></ul></dl></li>
              <li class="enumeration__sub-item"><div class="enumeration__text">Gebäude</div></li>
            </ol>
          </li>
        </ol></div>"#,
    );
    let queries = Queries::compile().unwrap();
    let d = Definition::parse(&p, &queries).unwrap();
    assert_eq!(d.meanings().len(), 2);
    assert!(matches!(&d.meanings()[1], Meaning::Complex(subs) if subs.len() == 2));
    assert_eq!(
        d.render(),
        "\x1b[1mBank\x1b[m\n\n\
         1) Sitzgelegenheit\n\t\x1b[1mBeispiel\x1b[m\n\t - eine Bank im Park\n\
         2) \ta) Geldinstitut\n\t\x1b[1mBeispiele\x1b[m\n\t - zur Bank gehen\n\t - die Bank\n                  wechseln\n\
         \tb) Gebäude\n\n"
    );
}

#[test]
fn missing_title_is_an_error() {
    let p = page(r#"<div id="bedeutung"><p>x</p></div>"#);
    let queries = Queries::compile().unwrap();
    assert!(matches!(Definition::parse(&p, &queries), Err(ParseError::MissingTitle)));
}

#[test]
fn no_meanings_is_an_error() {
    let p = page("<h1>Leer</h1>");
    let queries = Queries::compile().unwrap();
    assert!(matches!(Definition::parse(&p, &queries), Err(ParseError::NoMeanings)));
}

#[test]
fn sense_without_text_is_an_error() {
    let src = DefinitionSource {
        title: Some(frags(&["T"])),
        meanings: vec![MeaningSource {
            own: sense("own"),
            sub_items: vec![sense("a"), SenseSource { text: None, note: None }],
        }],
        singleton: Some(frags(&["unused"])),
    };
    assert!(matches!(Definition::from_source(&src), Err(ParseError::EmptySense)));
    let single = MeaningSource { own: SenseSource { text: None, note: None }, sub_items: Vec::new() };
    assert!(matches!(Meaning::from_source(&single), Err(ParseError::EmptySense)));
}

#[test]
fn empty_note_block_gives_empty_example_list() {
    let s = SimpleMeaning::from_source(&SenseSource {
        text: Some(frags(&["t"])),
        note: Some(Vec::new()),
    })
    .unwrap();
    assert_eq!(s.examples, Some(Vec::new()));
    let mut out = String::new();
    s.render_into(&mut out, 0, None);
    assert_eq!(out, "t\n\t\x1b[1mBeispiele\x1b[m");
}

#[test]
fn sub_sense_labels_past_z() {
    let subs: Vec<SenseSource> = (0..28).map(|i| sense(&format!("s{i}"))).collect();
    let src = DefinitionSource {
        title: Some(frags(&["T"])),
        meanings: vec![MeaningSource { own: sense("own"), sub_items: subs }],
        singleton: None,
    };
    let d = Definition::from_source(&src).unwrap();
    let text = d.render();
    assert!(text.contains("\tz) s25\n\taa) s26\n\tab) s27\n"));
}

#[test]
fn numbering_past_nine() {
    let meanings: Vec<MeaningSource> = (0..11)
        .map(|i| MeaningSource { own: sense(&format!("m{i}")), sub_items: Vec::new() })
        .collect();
    let src = DefinitionSource { title: Some(frags(&["T"])), meanings, singleton: None };
    let d = Definition::from_source(&src).unwrap();
    assert!(d.render().ends_with("9) m8\n10) m9\n11) m10\n"));
}

#[test]
fn simple_meaning_new_has_no_examples() {
    let s = SimpleMeaning::new("x".to_string());
    assert_eq!(s.text, "x");
    assert!(s.examples.is_none());
}

#[test]
fn rendering_leaves_out_soft_hyphens() {
    let sense = SimpleMeaning {
        text: "Sil\u{AD}be".to_string(),
        examples: Some(vec!["Trenn\u{AD}stelle".to_string()]),
    };
    let d = Definition::new("Bei\u{AD}spiel".to_string(), vec![Meaning::Simple(sense)]);
    let text = d.render();
    assert!(!text.contains('\u{AD}'));
    assert_eq!(
        text,
        "\x1b[1mBeispiel\x1b[m\n\n1) Silbe\n\t\x1b[1mBeispiel\x1b[m\n\t - Trennstelle\n"
    );
    let t = Tuple { key: "Ge\u{AD}brauch".to_string(), val: vec![" Che\u{AD}mie ".to_string()] };
    assert_eq!(t.render(), "Gebrauch\nChemie");
}
