//! Starting a document run: one page pipeline per rendered page, all under
//! the document's hash.

use vstd::prelude::*;
use crate::error::Error;
use crate::hashing::{document_hash, flatten};
use crate::keys::{storage_key_spec, ArtifactKind};
use crate::page::{PageAction, PagePipeline, PageState, PipelineConfig};

verus! {

/// Whether `entry` is page `i`'s pipeline, waiting on the store of its
/// image `image` at `{hash}/{i}.jpg`.
pub open spec fn started_page(
    config: PipelineConfig,
    hash: Seq<char>,
    i: int,
    image: Vec<u8>,
    entry: (PagePipeline, PageAction),
) -> bool {
    let (pipeline, action) = entry;
    &&& pipeline.config == config
    &&& pipeline.hash@ == hash
    &&& pipeline.page == i
    &&& pipeline.state == PageState::StoringImage
    &&& action matches PageAction::Store { bucket, key, body } && bucket@ == config.bucket@
        && key@ == storage_key_spec(hash, i as nat, ArtifactKind::Image) && body == image
}

/// Whether `started` holds, for each rendered page in order, its started pipeline.
pub open spec fn started_pages(
    config: PipelineConfig,
    hash: Seq<char>,
    pages: Seq<Vec<u8>>,
    started: Seq<(PagePipeline, PageAction)>,
) -> bool {
    &&& started.len() == pages.len()
    &&& forall|i: int|
        0 <= i < started.len() ==> started_page(config, hash, i, pages[i], #[trigger] started[i])
}

/// Starts a document whose hash is `hash` from what the renderer gave: on a
/// render failure no page is started and the run fails as a whole; else one
/// pipeline per page, indexed in rendering order, each with its first call.
pub fn start_document(config: &PipelineConfig, hash: &str, rendered: Result<Vec<Vec<u8>>, String>) -> (r:
    Result<Vec<(PagePipeline, PageAction)>, Error>)
    ensures
        match rendered {
            Err(m) => r == Err::<Vec<(PagePipeline, PageAction)>, Error>(Error::Render(m)),
            Ok(pages) => r matches Ok(started) && started_pages(*config, hash@, pages@, started@),
        },
{
    let mut pages = match rendered {
        Err(m) => return Err(Error::Render(m)),
        Ok(pages) => pages,
    };
    let ghost orig = pages@;
    let n = pages.len();
    let mut reversed: Vec<Vec<u8>> = Vec::new();
    while pages.len() > 0
        invariant
            orig.len() == n,
            pages@ == orig.take(pages.len() as int),
            reversed@.len() == n - pages.len(),
            forall|j: int| 0 <= j < reversed@.len() ==> reversed@[j] == orig[n - 1 - j],
        decreases pages.len(),
    {
        let x = pages.pop().unwrap();
        reversed.push(x);
    }
    let mut started: Vec<(PagePipeline, PageAction)> = Vec::new();
    let mut i: usize = 0;
    while i < n
        invariant
            orig.len() == n,
            i <= n,
            reversed@.len() == n - i,
            forall|j: int| 0 <= j < reversed@.len() ==> reversed@[j] == orig[n - 1 - j],
            started_pages(*config, hash@, orig.take(i as int), started@),
        decreases n - i,
    {
        let image = reversed.pop().unwrap();
        let ghost before = started@;
        started.push(PagePipeline::start(config, hash, i, image));
        assert(started@.drop_last() == before);
        i = i + 1;
    }
    assert(orig.take(n as int) == orig);
    Ok(started)
}

/// Idempotent addressing: two runs over the same content, however it was
/// cut into chunks while reading, store every artifact of every page under
/// the same key.
pub proof fn lemma_rerun_same_keys(
    first: Seq<Seq<u8>>,
    second: Seq<Seq<u8>>,
    page: nat,
    kind: ArtifactKind,
)
    requires
        flatten(first) == flatten(second),
    ensures
        storage_key_spec(document_hash(flatten(first)), page, kind) == storage_key_spec(
            document_hash(flatten(second)),
            page,
            kind,
        ),
{
}

} // verus!
