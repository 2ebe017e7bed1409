use std::sync::atomic::{AtomicBool, Ordering};

use drawio_filter::cache::{ConverterCache, NoCacheConverter, OutputFormat};
use drawio_filter::config::Config;
use drawio_filter::drawio::DrawioConverter;
use drawio_filter::pandoc::{Image, PandocDocument};
use drawio_filter::runner::{ProcessOutput, ProcessRunner};

pub struct AlwaysOkRunner {
    pub ran: AtomicBool,
}

impl ProcessRunner for AlwaysOkRunner {
    fn path_exists(&self, path: &String) -> bool {
        path.ends_with(".drawio") || self.ran.load(Ordering::SeqCst)
    }

    fn remove_file(&self, _path: &String) -> bool {
        true
    }

    fn run(&self, _program: &String, _args: &Vec<String>) -> Result<ProcessOutput, String> {
        self.ran.store(true, Ordering::SeqCst);
        Ok(ProcessOutput { exit_code: Some(0), stdout: Vec::new() })
    }
}

#[test]
fn config_keeps_the_resolved_values() {
    let config = Config::new(
        Some(String::from("xvfb-run")),
        String::from("drawio"),
        false,
        String::from("html5"),
    );
    assert_eq!(config.xvfb_run_cmd, Some(String::from("xvfb-run")));
    assert_eq!(config.drawio_cmd, "drawio");
    assert!(!config.credits);
    assert_eq!(config.format, "html5");
}

#[test]
fn image_handle_carries_index_and_url() {
    let mut img = Image::new(3, String::from("a.drawio"));
    assert_eq!(img.index(), 3);
    assert_eq!(img.image_url_read_only(), "a.drawio");
    img.set_image_url(String::from("a.svg"));
    assert_eq!(img.index(), 3);
    assert_eq!(img.image_url_read_only(), "a.svg");
}

#[test]
fn policy_reports_the_substituted_output_path() {
    let runner = AlwaysOkRunner { ran: AtomicBool::new(false) };
    let drawio = DrawioConverter::new(&runner, &None, &String::from("drawio")).unwrap();
    let cache = NoCacheConverter::new(&drawio, &runner);
    let r = cache.convert(&String::from("dir/d.drawio"), OutputFormat::Svg);
    assert_eq!(r.unwrap(), "dir/d.svg");
    let r2 = cache.convert(&String::from("dir/d.drawio"), OutputFormat::Pdf);
    assert_eq!(r2.unwrap(), "dir/d.pdf");
}

#[test]
fn handles_come_back_in_document_order() {
    let bytes = String::from(
        "{\"pandoc-api-version\":[1,23],\"meta\":{},\"blocks\":[{\"t\":\"Para\",\"c\":[\
         {\"t\":\"Str\",\"c\":\"hello\"},\
         {\"t\":\"Image\",\"c\":[[\"\",[],[]],[],[\"one.drawio\",\"\"]]},\
         {\"t\":\"Image\",\"c\":[[\"\",[],[]],[],[\"two.png\",\"\"]]}]}]}",
    )
    .into_bytes();
    let doc = PandocDocument::new(&bytes).unwrap();
    let images = doc.get_all_images();
    assert_eq!(images.len(), 2);
    assert_eq!(images[0].index(), 0);
    assert_eq!(images[0].image_url_read_only(), "one.drawio");
    assert_eq!(images[1].index(), 1);
    assert_eq!(images[1].image_url_read_only(), "two.png");
}
