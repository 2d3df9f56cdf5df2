use context_server_tool::response::{normalize, Diagnostic, ResponsePart, ToolContent};

#[test]
fn empty_reply_becomes_empty_text() {
    let r = normalize(&Vec::new());
    assert_eq!(r.content, ToolContent::Text(String::new()));
    assert!(r.diagnostics.is_empty());
}

#[test]
fn text_parts_join_with_newlines() {
    let parts = vec![
        ResponsePart::Text("a".to_string()),
        ResponsePart::Text("b".to_string()),
    ];
    let r = normalize(&parts);
    assert_eq!(r.content, ToolContent::Text("a\nb".to_string()));
    assert!(r.diagnostics.is_empty());
}

#[test]
fn single_text_part_gets_no_newline() {
    let parts = vec![ResponsePart::Text("only".to_string())];
    let r = normalize(&parts);
    assert_eq!(r.content, ToolContent::Text("only".to_string()));
}

#[test]
fn empty_text_parts_join_to_bare_newline() {
    let parts = vec![
        ResponsePart::Text(String::new()),
        ResponsePart::Text(String::new()),
    ];
    let r = normalize(&parts);
    assert_eq!(r.content, ToolContent::Text("\n".to_string()));
}

#[test]
fn first_png_wins_and_second_is_dropped() {
    let parts = vec![
        ResponsePart::Image {
            data: vec![1, 2, 3],
            mime_type: "image/png".to_string(),
        },
        ResponsePart::Image {
            data: vec![4, 5, 6],
            mime_type: "image/png".to_string(),
        },
    ];
    let r = normalize(&parts);
    match r.content {
        ToolContent::Image(img) => {
            assert_eq!(img.data, vec![1, 2, 3]);
            assert_eq!(img.width, 0);
            assert_eq!(img.height, 0);
        }
        ToolContent::Text(t) => panic!("expected image content, got text {:?}", t),
    }
    assert_eq!(r.diagnostics, vec![Diagnostic::ExtraImageDiscarded]);
}

#[test]
fn non_png_image_degrades_to_text() {
    let parts = vec![
        ResponsePart::Image {
            data: vec![9, 9],
            mime_type: "image/jpeg".to_string(),
        },
        ResponsePart::Text("hello".to_string()),
    ];
    let r = normalize(&parts);
    assert_eq!(
        r.content,
        ToolContent::Text(
            "Tool returned an image of type image/jpeg (content not displayed in this view)\nhello"
                .to_string()
        )
    );
    assert_eq!(r.diagnostics, vec![Diagnostic::UnsupportedImageType]);
}

#[test]
fn png_beats_text_in_final_selection() {
    let parts = vec![
        ResponsePart::Text("caption".to_string()),
        ResponsePart::Image {
            data: vec![7],
            mime_type: "image/png".to_string(),
        },
    ];
    let r = normalize(&parts);
    match r.content {
        ToolContent::Image(img) => assert_eq!(img.data, vec![7]),
        ToolContent::Text(t) => panic!("expected image content, got text {:?}", t),
    }
    assert!(r.diagnostics.is_empty());
}

#[test]
fn resource_parts_are_skipped_with_diagnostic() {
    let parts = vec![
        ResponsePart::Resource,
        ResponsePart::Text("kept".to_string()),
    ];
    let r = normalize(&parts);
    assert_eq!(r.content, ToolContent::Text("kept".to_string()));
    assert_eq!(r.diagnostics, vec![Diagnostic::ResourceSkipped]);
}

#[test]
fn mixed_reply_collects_all_diagnostics_in_order() {
    let parts = vec![
        ResponsePart::Image {
            data: vec![1],
            mime_type: "image/gif".to_string(),
        },
        ResponsePart::Image {
            data: vec![2],
            mime_type: "image/png".to_string(),
        },
        ResponsePart::Resource,
        ResponsePart::Image {
            data: vec![3],
            mime_type: "image/png".to_string(),
        },
    ];
    let r = normalize(&parts);
    match r.content {
        ToolContent::Image(img) => assert_eq!(img.data, vec![2]),
        ToolContent::Text(t) => panic!("expected image content, got text {:?}", t),
    }
    assert_eq!(
        r.diagnostics,
        vec![
            Diagnostic::UnsupportedImageType,
            Diagnostic::ResourceSkipped,
            Diagnostic::ExtraImageDiscarded,
        ]
    );
}
