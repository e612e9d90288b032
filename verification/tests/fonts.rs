use pg_sdl::fonts::font_paths;

fn chars(s: &str) -> Vec<char> {
    s.chars().collect()
}

fn strings(paths: Vec<Vec<char>>) -> Vec<String> {
    paths.into_iter().map(|p| p.into_iter().collect()).collect()
}

#[test]
fn font_list_joins_folder_and_names() {
    let list = chars(r#""/usr/share/fonts/TTF", "Vera.ttf", "VeraBd.ttf", "VeraIt.ttf","#);
    assert_eq!(
        strings(font_paths(&list)),
        vec![
            "/usr/share/fonts/TTF/Vera.ttf".to_string(),
            "/usr/share/fonts/TTF/VeraBd.ttf".to_string(),
            "/usr/share/fonts/TTF/VeraIt.ttf".to_string(),
        ]
    );
}

#[test]
fn font_list_skips_empty_names() {
    let list = chars(r#"fonts, , "", a.ttf"#);
    assert_eq!(strings(font_paths(&list)), vec!["fonts/a.ttf".to_string()]);
}

#[test]
fn font_list_with_folder_only_names_nothing() {
    assert!(font_paths(&chars("\"/tmp\"")).is_empty());
    assert!(font_paths(&chars("")).is_empty());
}

#[test]
fn font_list_trims_space_before_quotes() {
    let list = chars("\t\"dir\" ,\n \"\"x.ttf\"\" ");
    assert_eq!(strings(font_paths(&list)), vec!["dir/x.ttf".to_string()]);
}

#[test]
fn font_list_keeps_inner_space() {
    let list = chars("my fonts,\" a b.ttf\"");
    assert_eq!(strings(font_paths(&list)), vec!["my fonts/ a b.ttf".to_string()]);
}
