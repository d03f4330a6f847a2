use std::path::{Path, PathBuf};

use rpc_bridge::path::{components, join_path, path_within, sanitize_upload_rel, Component};
use rpc_bridge::percent::percent_decode;

fn normal(name: &str) -> Component {
    Component::Normal(name.to_string())
}

/// Paths made of all short words over a few characters that matter.
fn samples() -> Vec<String> {
    let alphabet = ['a', '.', '/', '文'];
    let mut words = vec![String::new()];
    let mut last = words.clone();
    for _ in 0..6 {
        let mut next = Vec::new();
        for word in &last {
            for c in alphabet {
                let mut longer = word.clone();
                longer.push(c);
                next.push(longer);
            }
        }
        words.extend(next.iter().cloned());
        last = next;
    }
    words
}

#[test]
fn escapes_are_undone() {
    assert_eq!(percent_decode("a%20b"), Some("a b".to_string()));
    assert_eq!(percent_decode("a+b"), Some("a b".to_string()));
    assert_eq!(percent_decode("%2B%25"), Some("+%".to_string()));
    assert_eq!(percent_decode("%2f%2F"), Some("//".to_string()));
    assert_eq!(percent_decode("%E6%96%87%e4%bb%b6.md"), Some("文件.md".to_string()));
    assert_eq!(percent_decode(""), Some(String::new()));
}

#[test]
fn each_byte_may_be_written_in_its_own_way() {
    let text = Some("a 文 b/文".to_string());
    assert_eq!(percent_decode("a+文%20b%2f%e6%96%87"), text);
    assert_eq!(percent_decode("%61%20%E6%96%87+b/文"), text);
    assert_eq!(percent_decode("a 文 b%2F%e6%96%87"), text);
}

#[test]
fn plain_text_is_kept() {
    assert_eq!(percent_decode("notes/2024-01.md"), Some("notes/2024-01.md".to_string()));
    assert_eq!(percent_decode("文件"), Some("文件".to_string()));
}

#[test]
fn broken_escapes_are_refused() {
    assert_eq!(percent_decode("%"), None);
    assert_eq!(percent_decode("%2"), None);
    assert_eq!(percent_decode("abc%4"), None);
    assert_eq!(percent_decode("%zz"), None);
    assert_eq!(percent_decode("%-1"), None);
    assert_eq!(percent_decode("%1-"), None);
    assert_eq!(percent_decode("%é"), None);
    assert_eq!(percent_decode("% 1"), None);
}

#[test]
fn a_plus_sign_counts_as_part_of_the_number() {
    assert_eq!(percent_decode("%+f"), Some("\u{f}".to_string()));
    assert_eq!(percent_decode("%f+"), None);
    assert_eq!(percent_decode("%++"), None);
}

#[test]
fn bytes_that_are_no_utf8_are_refused() {
    assert_eq!(percent_decode("%ff"), None);
    assert_eq!(percent_decode("%e6%96"), None);
    assert_eq!(percent_decode("%c0%80"), None);
}

#[test]
fn encoded_text_comes_back() {
    for text in ["", "a b+c%d", "照片/夏天 (1).jpg", "\u{0}\u{7f}\u{10ffff}"] {
        let mut encoded = String::new();
        for b in text.bytes() {
            if b.is_ascii_alphanumeric() {
                encoded.push(b as char);
            } else {
                encoded.push_str(&format!("%{:02X}", b));
            }
        }
        assert_eq!(percent_decode(&encoded), Some(text.to_string()));
    }
}

#[test]
fn components_of_a_path() {
    assert_eq!(components(""), vec![]);
    assert_eq!(components("/"), vec![Component::RootDir]);
    assert_eq!(components("."), vec![Component::CurDir]);
    assert_eq!(components("a//b/"), vec![normal("a"), normal("b")]);
    assert_eq!(components("a/./b/."), vec![normal("a"), normal("b")]);
    assert_eq!(components("./a/.."), vec![Component::CurDir, normal("a"), Component::ParentDir]);
    assert_eq!(components("/x/...y"), vec![Component::RootDir, normal("x"), normal("...y")]);
}

#[test]
fn components_agree_with_the_standard_library() {
    for sample in samples() {
        let expected: Vec<Component> = Path::new(&sample)
            .components()
            .map(|c| match c {
                std::path::Component::RootDir => Component::RootDir,
                std::path::Component::CurDir => Component::CurDir,
                std::path::Component::ParentDir => Component::ParentDir,
                std::path::Component::Normal(part) => normal(part.to_str().unwrap()),
                std::path::Component::Prefix(_) => unreachable!(),
            })
            .collect();
        assert_eq!(components(&sample), expected, "{sample}");
    }
}

#[test]
fn joining_agrees_with_the_standard_library() {
    for base in ["", "/", "a", "a/", "/x/y", "."] {
        for sample in samples() {
            let expected = PathBuf::from(base).join(&sample);
            assert_eq!(join_path(base, &sample), expected.to_str().unwrap());
        }
    }
}

#[test]
fn containment_agrees_with_the_standard_library() {
    for root in ["", "/", "a", "a/", "/a", "a/a", ".", "a/..", "/文"] {
        for sample in samples() {
            let expected = Path::new(&sample).starts_with(root);
            assert_eq!(path_within(&sample, root), expected, "{sample} {root}");
        }
    }
}

#[test]
fn containment_is_by_component() {
    assert!(path_within("/srv/dist/app.js", "/srv/dist"));
    assert!(path_within("/srv/dist", "/srv/dist"));
    assert!(!path_within("/srv/dist-old/app.js", "/srv/dist"));
    assert!(!path_within("/srv", "/srv/dist"));
}

#[test]
fn clean_paths_are_kept() {
    assert_eq!(sanitize_upload_rel("a.txt"), Some("a.txt".to_string()));
    assert_eq!(sanitize_upload_rel("folder/sub/文.pdf"), Some("folder/sub/文.pdf".to_string()));
    assert_eq!(sanitize_upload_rel("..."), Some("...".to_string()));
}

#[test]
fn paths_are_cleaned() {
    assert_eq!(sanitize_upload_rel("a//b/./c/"), Some("a/b/c".to_string()));
    assert_eq!(sanitize_upload_rel("a/."), Some("a".to_string()));
}

#[test]
fn escaping_paths_are_refused() {
    for rel in ["", "/etc/passwd", "..", "../x", "a/../b", "a/..", ".", "./a", "/", "//"] {
        assert_eq!(sanitize_upload_rel(rel), None, "{rel}");
    }
}

#[test]
fn long_paths_are_refused() {
    assert!(sanitize_upload_rel(&"a".repeat(1024)).is_some());
    assert!(sanitize_upload_rel(&"a".repeat(1025)).is_none());
    assert!(sanitize_upload_rel(&"文".repeat(341)).is_some());
    assert!(sanitize_upload_rel(&"文".repeat(342)).is_none());
}

#[test]
fn cleaning_agrees_with_the_standard_library_and_is_stable() {
    for sample in samples() {
        let mut clean = PathBuf::new();
        let mut fine = !sample.is_empty();
        for comp in Path::new(&sample).components() {
            match comp {
                std::path::Component::Normal(part) => clean.push(part),
                _ => fine = false,
            }
        }
        let expected = if fine { Some(clean.to_str().unwrap().to_string()) } else { None };
        assert_eq!(sanitize_upload_rel(&sample), expected, "{sample}");
        if let Some(path) = expected {
            assert_eq!(sanitize_upload_rel(&path), Some(path.clone()));
            let below = join_path("/base/dir", &path);
            assert!(path_within(&below, "/base/dir"));
        }
    }
}
