use vstd::prelude::*;
use vstd::utf8::{decode_utf8, valid_utf8};
use base64::Engine;
use crate::auth::opt_str_view;
use crate::error::PipelineError;
use crate::github::PublishEvent;
use crate::merge::{merge, merge_yaml};
use crate::yaml::{YamlNode, YamlValue, is_well_formed, unique_keys, well_formed};

verus! {

/// Where a project's configuration file lies in its repository.
pub const CONFIG_PATH: &'static str = "synkronized.yaml";

/// The deployment settings of a project: its application and chart template.
#[derive(Debug)]
pub struct Synkronized {
    pub name: String,
    pub template: String,
}

/// A project's configuration file: its settings and the base values.
#[derive(Debug)]
pub struct SynkronizedProject {
    pub synkronized: Synkronized,
    pub config: YamlValue,
}

/// The computed values that a published package sets on a project.
#[derive(Debug)]
pub struct ContainerImage {
    pub name: String,
    pub image: String,
}

/// The bytes that standard, padded base64 text stands for; `None` where the
/// text is not such.
pub uninterp spec fn base64_standard_decoded(text: Seq<char>) -> Option<Seq<u8>>;

/// Relies on base64's STANDARD engine `decode`: the bytes the text encodes,
/// or an error where the text is not standard base64.
#[verifier::external_body]
fn decode_base64(text: &str) -> (r: Option<Vec<u8>>)
    ensures
        match r {
            Some(b) => base64_standard_decoded(text@) == Some(b@),
            None => base64_standard_decoded(text@) is None,
        },
{
    base64::engine::general_purpose::STANDARD.decode(text).ok()
}

/// Relies on String::from_utf8: the text the bytes encode, where they are
/// valid UTF-8, and an error otherwise.
#[verifier::external_body]
fn utf8_text(bytes: Vec<u8>) -> (r: Option<String>)
    ensures
        match r {
            Some(s) => valid_utf8(bytes@) && s@ == decode_utf8(bytes@),
            None => !valid_utf8(bytes@),
        },
{
    String::from_utf8(bytes).ok()
}

/// Relies on str::replace: the text with every line break taken out, the
/// other characters kept in order.
#[verifier::external_body]
fn without_line_breaks(text: &str) -> (r: String)
    ensures
        r@ == text@.filter(|c: char| c != '\n'),
{
    text.replace('\n', "")
}

/// The configuration text that decoded bytes stand for.
pub open spec fn config_text_of(decoded: Option<Seq<u8>>) -> Result<Seq<char>, PipelineError> {
    match decoded {
        None => Err(PipelineError::TransportDecodeError),
        Some(b) => if valid_utf8(b) {
            Ok(decode_utf8(b))
        } else {
            Err(PipelineError::SourceFileMalformed)
        },
    }
}

/// The configuration text that fetched file content stands for: base64
/// broken into lines, of UTF-8 text.
pub open spec fn decoded_config(content: Option<Seq<char>>) -> Result<Seq<char>, PipelineError> {
    match content {
        None => Err(PipelineError::SourceFileMissing),
        Some(c) => config_text_of(base64_standard_decoded(c.filter(|ch: char| ch != '\n'))),
    }
}

pub open spec fn result_text_view(r: Result<String, PipelineError>) -> Result<Seq<char>, PipelineError> {
    match r {
        Ok(s) => Ok(s@),
        Err(e) => Err(e),
    }
}

/// The configuration text of transport-decoded bytes, where the decoding
/// succeeded and the bytes are UTF-8.
pub fn config_text(decoded: Option<Vec<u8>>) -> (r: Result<String, PipelineError>)
    ensures
        result_text_view(r) == config_text_of(
            match decoded {
                Some(b) => Some(b@),
                None => None,
            },
        ),
{
    match decoded {
        None => Err(PipelineError::TransportDecodeError),
        Some(bytes) => match utf8_text(bytes) {
            Some(text) => Ok(text),
            None => Err(PipelineError::SourceFileMalformed),
        },
    }
}

/// Decodes the content of the configuration file as the repository's content
/// service hands it out; `None` where the file has no content.
pub fn decode_config(content: Option<&str>) -> (r: Result<String, PipelineError>)
    ensures
        result_text_view(r) == decoded_config(opt_str_view(content)),
{
    match content {
        None => Err(PipelineError::SourceFileMissing),
        Some(c) => {
            let joined = without_line_breaks(c);
            config_text(decode_base64(joined.as_str()))
        },
    }
}

/// The document that sets a package's name and image.
pub open spec fn image_document(name: Seq<char>, image: Seq<char>) -> YamlNode {
    YamlNode::Mapping(
        seq![(YamlNode::Str("name"@), YamlNode::Str(name)), (YamlNode::Str("image"@), YamlNode::Str(image))],
    )
}

impl ContainerImage {
    /// The computed values of a published package.
    pub fn from_event(event: &PublishEvent) -> (r: ContainerImage)
        ensures
            r.name == event.package_name,
            r.image == event.image_reference,
    {
        ContainerImage { name: event.package_name.clone(), image: event.image_reference.clone() }
    }

    /// The values as a document, with the keys `name` and `image`.
    pub fn to_yaml(&self) -> (r: YamlValue)
        ensures
            r@ == image_document(self.name@, self.image@),
            well_formed(r@),
    {
        let name_key = YamlValue::Str(String::from_str("name"));
        let name_value = YamlValue::Str(self.name.clone());
        let image_key = YamlValue::Str(String::from_str("image"));
        let image_value = YamlValue::Str(self.image.clone());
        proof {
            reveal_strlit("name");
            reveal_strlit("image");
            assert(name_key@ == YamlNode::Str("name"@));
            assert(name_value@ == YamlNode::Str(self.name@));
            assert(image_key@ == YamlNode::Str("image"@));
            assert(image_value@ == YamlNode::Str(self.image@));
            assert("name"@[0] != "image"@[0]);
        }
        let mut entries: Vec<(YamlValue, YamlValue)> = Vec::new();
        entries.push((name_key, name_value));
        entries.push((image_key, image_value));
        let r = YamlValue::Mapping(entries);
        proof {
            let es = image_document(self.name@, self.image@)->Mapping_0;
            assert(r@->Mapping_0 =~= es);
            assert(es[0].0 != es[1].0);
            assert(unique_keys(es));
            assert(well_formed(es[0].1));
            assert(well_formed(es[1].1));
        }
        r
    }
}

impl SynkronizedProject {
    /// Merges the computed values of a published package into the base
    /// values; refused where the base values repeat a key in some mapping.
    pub fn with_image(&mut self, event: &PublishEvent) -> (r: Result<(), PipelineError>)
        ensures
            final(self).synkronized == old(self).synkronized,
            well_formed(old(self).config@) ==> r is Ok && final(self).config@ == merge(
                old(self).config@,
                image_document(event.package_name@, event.image_reference@),
            ),
            !well_formed(old(self).config@) ==> r == Err::<(), PipelineError>(
                PipelineError::SourceFileMalformed,
            ) && final(self).config == old(self).config,
    {
        if !is_well_formed(&self.config) {
            return Err(PipelineError::SourceFileMalformed);
        }
        let image = ContainerImage::from_event(event);
        let incoming = image.to_yaml();
        merge_yaml(&mut self.config, incoming);
        Ok(())
    }
}

} // verus!
