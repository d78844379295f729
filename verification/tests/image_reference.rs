use chassis::remote_build::image::assemble_image_reference;

#[test]
fn reference_without_registry() {
    assert_eq!(
        assemble_image_reference("", "", "username/image", "tag"),
        "username/image:tag"
    );
}

#[test]
fn reference_with_trailing_slash_in_registry() {
    assert_eq!(
        assemble_image_reference("my-registry:5000/", "", "username/image", "tag"),
        "my-registry:5000/username/image:tag"
    );
}

#[test]
fn reference_with_prefix() {
    assert_eq!(
        assemble_image_reference("my-registry:5000", "prefix", "image", "tag"),
        "my-registry:5000/prefix/image:tag"
    );
}

#[test]
fn reference_collapses_every_run_of_slashes() {
    assert_eq!(
        assemble_image_reference("registry//", "//team///", "a////b", "v1"),
        "registry/team/a/b:v1"
    );
}

#[test]
fn reference_drops_one_leading_slash() {
    assert_eq!(assemble_image_reference("", "", "/image", "tag"), "image:tag");
    assert_eq!(
        assemble_image_reference("", "", "///image", "tag"),
        "image:tag"
    );
}

#[test]
fn reference_leaves_out_empty_pieces() {
    assert_eq!(
        assemble_image_reference("registry", "", "", "tag"),
        "registry:tag"
    );
    assert_eq!(assemble_image_reference("", "", "", "tag"), ":tag");
    assert_eq!(
        assemble_image_reference("", "prefix", "image", ""),
        "prefix/image:"
    );
}

#[test]
fn reference_keeps_characters_that_are_no_slashes() {
    assert_eq!(
        assemble_image_reference("registry", "", "bücher/größe", "tag"),
        "registry/bücher/größe:tag"
    );
}

#[test]
fn reference_has_the_promised_shape() {
    let cases = [
        ("", "", "username/image", "tag"),
        ("my-registry:5000/", "", "username/image", "tag"),
        ("my-registry:5000", "prefix", "image", "tag"),
        ("/", "/", "/", "latest"),
        ("//host//", "//p//", "//n//", "1.0"),
        ("host", "a//b", "c", "t:x"),
    ];
    for (registry, prefix, name, tag) in cases {
        let reference = assemble_image_reference(registry, prefix, name, tag);
        assert!(!reference.contains("//"), "{}", reference);
        assert!(!reference.starts_with('/'), "{}", reference);
        assert!(reference.ends_with(&format!(":{}", tag)), "{}", reference);
        let path = &reference[..reference.len() - tag.len() - 1];
        assert!(!path.starts_with('/') && !path.contains("//"), "{}", path);
    }
}

#[test]
fn reference_with_two_slashes_in_the_tag_keeps_them() {
    assert_eq!(
        assemble_image_reference("", "", "image", "a//b"),
        "image:a//b"
    );
}
