//! One page's pipeline as a stage machine: store image, recognize text,
//! store text, synthesize speech, store audio. Each step takes what the last
//! outside call gave and names the next call to make; the caller performs it.

use vstd::prelude::*;
use crate::error::{Error, Stage};
use vstd::utf8::encode_utf8;
use vstd::string::StrSliceExecFns;
use crate::keys::{storage_key, storage_key_spec, ArtifactKind};
use crate::reference::{image_reference, image_reference_fits, image_segments, url_with_segments};
use crate::response::ChatResponse;

verus! {

/// Where a page's artifacts go.
#[derive(Debug, Clone)]
pub struct PipelineConfig {
    /// The namespace of images and texts.
    pub bucket: String,
    /// The namespace of audio, which may differ from `bucket`.
    pub audio_bucket: String,
    /// The public base URL under which stored images can be fetched.
    pub endpoint: String,
}

/// What the pipeline waits for.
#[derive(Debug, Clone, PartialEq, Eq)]
pub enum PageState {
    StoringImage,
    Recognizing,
    /// The recognized text is being stored; it is kept for synthesis.
    StoringText(String),
    Synthesizing,
    StoringAudio,
    Done,
}

/// What the last outside call gave.
#[derive(Debug, Clone, PartialEq, Eq)]
pub enum PageEvent {
    Stored,
    StoreFailed(String),
    Recognized(Option<ChatResponse>),
    Synthesized(Vec<u8>),
    ServiceFailed(String),
}

/// The next outside call to make, or the page's outcome.
#[derive(Debug, PartialEq, Eq)]
pub enum PageAction {
    Store { bucket: String, key: String, body: Vec<u8> },
    Recognize { image_url: String },
    Synthesize { text: String },
    Finish(Result<(), Error>),
}

/// Whether an event answers what a state waits for.
pub open spec fn accepts_spec(state: PageState, ev: PageEvent) -> bool {
    match state {
        PageState::StoringImage | PageState::StoringText(_) | PageState::StoringAudio => (
            ev is Stored || ev is StoreFailed),
        PageState::Recognizing => ev is Recognized || ev is ServiceFailed,
        PageState::Synthesizing => ev is Synthesized || ev is ServiceFailed,
        PageState::Done => false,
    }
}

/// The stage of the store call that a state waits for.
pub open spec fn store_stage(state: PageState) -> Stage {
    match state {
        PageState::StoringImage => Stage::StoreImage,
        PageState::StoringText(_) => Stage::StoreText,
        _ => Stage::StoreAudio,
    }
}

/// The state machine of one page.
#[derive(Debug, Clone)]
pub struct PagePipeline {
    pub config: PipelineConfig,
    pub hash: String,
    pub page: usize,
    pub state: PageState,
}

impl PagePipeline {
    /// Starts a page's pipeline: the first call stores the page image at
    /// `{hash}/{page}.jpg` in the image bucket.
    pub fn start(config: &PipelineConfig, hash: &str, page: usize, image: Vec<u8>) -> (r: (
        PagePipeline,
        PageAction,
    ))
        ensures
            r.0.config == *config,
            r.0.hash@ == hash@,
            r.0.page == page,
            r.0.state == PageState::StoringImage,
            r.1 matches PageAction::Store { bucket, key, body } && bucket@ == config.bucket@
                && key@ == storage_key_spec(hash@, page as nat, ArtifactKind::Image) && body
                == image,
    {
        let key = storage_key(hash, page, ArtifactKind::Image);
        let pipeline = PagePipeline {
            config: PipelineConfig {
                bucket: config.bucket.clone(),
                audio_bucket: config.audio_bucket.clone(),
                endpoint: config.endpoint.clone(),
            },
            hash: String::from_str(hash),
            page,
            state: PageState::StoringImage,
        };
        let action = PageAction::Store { bucket: config.bucket.clone(), key, body: image };
        (pipeline, action)
    }

    /// Whether `ev` answers what the pipeline waits for.
    pub fn accepts(&self, ev: &PageEvent) -> (r: bool)
        ensures
            r == accepts_spec(self.state, *ev),
    {
        match self.state {
            PageState::StoringImage | PageState::StoringText(_) | PageState::StoringAudio => {
                match ev {
                    PageEvent::Stored | PageEvent::StoreFailed(_) => true,
                    _ => false,
                }
            },
            PageState::Recognizing => match ev {
                PageEvent::Recognized(_) | PageEvent::ServiceFailed(_) => true,
                _ => false,
            },
            PageState::Synthesizing => match ev {
                PageEvent::Synthesized(_) | PageEvent::ServiceFailed(_) => true,
                _ => false,
            },
            PageState::Done => false,
        }
    }

    /// Takes the result of the last call and gives the next call, or the
    /// page's outcome once a stage has failed or the audio is stored. A
    /// refusal or a missing answer ends the page; nothing is retried.
    pub fn step(&mut self, ev: PageEvent) -> (r: PageAction)
        requires
            accepts_spec(old(self).state, ev),
        ensures
            final(self).config == old(self).config,
            final(self).hash == old(self).hash,
            final(self).page == old(self).page,
            (final(self).state is Done) <==> (r is Finish),
            ({
                let cfg = old(self).config;
                let hash = old(self).hash@;
                let page = old(self).page as nat;
                match (old(self).state, ev) {
                    (PageState::StoringImage, PageEvent::Stored) => match if image_reference_fits(
                        cfg.endpoint@,
                        cfg.bucket@,
                        hash,
                        page,
                    ) {
                        url_with_segments(cfg.endpoint@, image_segments(cfg.bucket@, hash, page))
                    } else {
                        None
                    } {
                        Some(u) => final(self).state == PageState::Recognizing
                            && (r matches PageAction::Recognize { image_url } && image_url@ == u),
                        None => r == PageAction::Finish(Err(Error::ReferenceConstruction)),
                    },
                    (PageState::Recognizing, PageEvent::Recognized(Some(ChatResponse::Content(text))))
                        => final(self).state == PageState::StoringText(text)
                        && (r matches PageAction::Store { bucket, key, body } && bucket@
                        == cfg.bucket@ && key@ == storage_key_spec(hash, page, ArtifactKind::Text)
                        && body@ == encode_utf8(text@)),
                    (PageState::Recognizing, PageEvent::Recognized(Some(ChatResponse::Refusal(reason))))
                        => r == PageAction::Finish(Err(Error::Refusal(reason))),
                    (PageState::Recognizing, PageEvent::Recognized(None)) => r == PageAction::Finish(
                        Err(Error::NoResponse),
                    ),
                    (PageState::StoringText(text), PageEvent::Stored) => final(self).state
                        == PageState::Synthesizing && r == PageAction::Synthesize { text },
                    (PageState::Synthesizing, PageEvent::Synthesized(audio)) => final(self).state
                        == PageState::StoringAudio && (r matches PageAction::Store {
                        bucket,
                        key,
                        body,
                    } && bucket@ == cfg.audio_bucket@ && key@ == storage_key_spec(
                        hash,
                        page,
                        ArtifactKind::Audio,
                    ) && body == audio),
                    (PageState::StoringAudio, PageEvent::Stored) => r == PageAction::Finish(Ok(())),
                    (PageState::Recognizing, PageEvent::ServiceFailed(m)) => r == PageAction::Finish(
                        Err(Error::Service(Stage::Recognize, m)),
                    ),
                    (PageState::Synthesizing, PageEvent::ServiceFailed(m)) => r == PageAction::Finish(
                        Err(Error::Service(Stage::Synthesize, m)),
                    ),
                    (s, PageEvent::StoreFailed(m)) => r == PageAction::Finish(
                        Err(Error::Storage(store_stage(s), m)),
                    ),
                    _ => false,
                }
            }),
    {
        let mut state = PageState::Done;
        std::mem::swap(&mut self.state, &mut state);
        match (state, ev) {
            (PageState::StoringImage, PageEvent::Stored) => {
                match image_reference(
                    self.config.endpoint.as_str(),
                    self.config.bucket.as_str(),
                    self.hash.as_str(),
                    self.page,
                ) {
                    Some(url) => {
                        self.state = PageState::Recognizing;
                        PageAction::Recognize { image_url: url }
                    },
                    None => PageAction::Finish(Err(Error::ReferenceConstruction)),
                }
            },
            (PageState::Recognizing, PageEvent::Recognized(answer)) => match answer {
                Some(ChatResponse::Content(text)) => {
                    let key = storage_key(self.hash.as_str(), self.page, ArtifactKind::Text);
                    let body = text.as_str().as_bytes_vec();
                    self.state = PageState::StoringText(text);
                    PageAction::Store { bucket: self.config.bucket.clone(), key, body }
                },
                Some(ChatResponse::Refusal(reason)) => PageAction::Finish(
                    Err(Error::Refusal(reason)),
                ),
                None => PageAction::Finish(Err(Error::NoResponse)),
            },
            (PageState::StoringText(text), PageEvent::Stored) => {
                self.state = PageState::Synthesizing;
                PageAction::Synthesize { text }
            },
            (PageState::Synthesizing, PageEvent::Synthesized(audio)) => {
                let key = storage_key(self.hash.as_str(), self.page, ArtifactKind::Audio);
                self.state = PageState::StoringAudio;
                PageAction::Store { bucket: self.config.audio_bucket.clone(), key, body: audio }
            },
            (PageState::StoringAudio, PageEvent::Stored) => PageAction::Finish(Ok(())),
            (PageState::Recognizing, PageEvent::ServiceFailed(m)) => PageAction::Finish(
                Err(Error::Service(Stage::Recognize, m)),
            ),
            (PageState::Synthesizing, PageEvent::ServiceFailed(m)) => PageAction::Finish(
                Err(Error::Service(Stage::Synthesize, m)),
            ),
            (PageState::StoringImage, PageEvent::StoreFailed(m)) => PageAction::Finish(
                Err(Error::Storage(Stage::StoreImage, m)),
            ),
            (PageState::StoringText(_), PageEvent::StoreFailed(m)) => PageAction::Finish(
                Err(Error::Storage(Stage::StoreText, m)),
            ),
            (_, PageEvent::StoreFailed(m)) => PageAction::Finish(
                Err(Error::Storage(Stage::StoreAudio, m)),
            ),
            (_, _) => PageAction::Finish(Err(Error::NoResponse)),
        }
    }
}

} // verus!
