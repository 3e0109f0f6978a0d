use std::io::{Read, Write};

use anvil::Forge;
use anvil_minijinja::Shrine;
use anvil_minijinja::context::Context;
use anvil_minijinja::registry::TemplateRegistry;
use anvil_minijinja::sink::Sink;
use anvil_minijinja::template::TemplateShrine;

struct ForgeWrap<'a, T: Shrine>(&'a T);

impl<'a, T: Shrine> anvil::Anvil for ForgeWrap<'a, T> {
    type Error = std::io::Error;

    fn anvil(&self, writer: &mut (impl std::io::Write + Sized)) -> Result<(), Self::Error> {
        let mut sink = Sink::new();
        self.0
            .minijinja(&mut sink)
            .map_err(|_| std::io::Error::other("render failed"))?;
        writer.write_all(&sink.into_bytes())
    }
}

#[test]
fn it_fails_if_file_does_not_exist() {
    let dir = tempfile::tempdir().unwrap();
    let file_path = dir.path().join("my-temporary-note.txt");
    let mut registry = TemplateRegistry::new();
    registry.add_template("test".to_string(), "Appended content.".to_string());
    let template = TemplateShrine {
        registry: &registry,
        name: "test".to_string(),
        context: Context::new(),
    };
    let result = anvil::append::Append::new(ForgeWrap(&template)).forge(&file_path);
    assert!(result.is_err());
}

#[test]
fn it_appends_to_file() {
    let mut file = tempfile::NamedTempFile::new().unwrap();
    file.write_all(b"Initial content.\n").unwrap();
    let mut registry = TemplateRegistry::new();
    registry.add_template("test".to_string(), "Appended content.".to_string());
    let template = TemplateShrine {
        registry: &registry,
        name: "test".to_string(),
        context: Context::new(),
    };
    let result = anvil::append::Append::new(ForgeWrap(&template)).forge(file.path());
    assert!(result.is_ok());
    let mut content = String::new();
    file.reopen().unwrap().read_to_string(&mut content).unwrap();
    assert_eq!(content, "Initial content.\nAppended content.")
}

#[test]
fn append_it_can_render_from_file() {
    let mut file = tempfile::NamedTempFile::new().unwrap();
    file.write_all(b"Initial content.\n").unwrap();
    let mut registry = TemplateRegistry::new();
    registry.add_template("test.txt".to_string(), "Hello, {{ name }}!".to_string());
    let mut context = Context::new();
    context.insert("name".to_string(), "World".to_string());
    let template = TemplateShrine {
        registry: &registry,
        name: "test.txt".to_string(),
        context,
    };
    let result = anvil::append::Append::new(ForgeWrap(&template)).forge(file.path());
    assert!(result.is_ok());
    let mut content = String::new();
    file.reopen().unwrap().read_to_string(&mut content).unwrap();
    assert_eq!(content, "Initial content.\nHello, World!");
}
