//! Content records: carousels, their slides, and generated copy.

use vstd::prelude::*;
use vstd::string::*;
use crate::registry::random_id_candidate;

verus! {

/// A carousel of slides targeted at one platform.
pub struct Carousel {
    pub id: String,
    pub title: String,
    pub platform: String,
    pub project_id: Option<String>,
    pub status: String,
    pub created_at: i64,
    pub updated_at: i64,
    pub slides: Vec<CarouselSlide>,
}

/// One slide of a carousel.
pub struct CarouselSlide {
    pub id: String,
    pub slide_type: String,
    pub content: String,
    pub image_url: Option<String>,
    pub style: SlideStyle,
    pub order: i32,
}

/// How a slide is rendered.
pub struct SlideStyle {
    pub background_color: String,
    pub text_color: String,
    pub font_size: String,
    pub alignment: String,
    pub font_weight: Option<String>,
    pub padding: Option<String>,
}

/// A request to generate copy text.
pub struct CopyRequest {
    pub copy_type: String,
    pub topic: String,
    pub tone: String,
    pub length: String,
    pub context: Option<String>,
    pub keywords: Option<Vec<String>>,
    pub target_audience: Option<String>,
}

/// A generated piece of copy together with the request that produced it.
pub struct CopyResult {
    pub id: String,
    pub request: CopyRequest,
    pub content: String,
    pub variations: Vec<String>,
    pub created_at: i64,
    pub rating: Option<i32>,
}

/// The placeholder text generated for a copy request.
pub open spec fn spec_copy_text(r: CopyRequest) -> Seq<char> {
    "Generated "@ + r.copy_type@ + " about \""@ + r.topic@ + "\" in "@ + r.tone@ + " tone ("@
        + r.length@ + " length)."@
}

/// Render the placeholder text for a copy request.
pub fn copy_placeholder_text(request: &CopyRequest) -> (r: String)
    ensures
        r@ == spec_copy_text(*request),
{
    String::from_str("Generated ").concat(request.copy_type.as_str()).concat(
        " about \"",
    ).concat(request.topic.as_str()).concat("\" in ").concat(request.tone.as_str()).concat(
        " tone (",
    ).concat(request.length.as_str()).concat(" length).")
}

/// A freshly created carousel: a drawn identifier, draft status, no
/// slides yet, updated when created.
pub fn new_carousel(title: String, platform: String, created_at: i64) -> (r: Carousel)
    ensures
        r.id@.len() == 36,
        r.title@ == title@,
        r.platform@ == platform@,
        r.project_id is None,
        r.status@ == "draft"@,
        r.created_at == created_at,
        r.updated_at == created_at,
        r.slides@.len() == 0,
{
    Carousel {
        id: random_id_candidate(),
        title,
        platform,
        project_id: Option::None,
        status: String::from_str("draft"),
        created_at,
        updated_at: created_at,
        slides: Vec::new(),
    }
}

/// A slide ready for storage: its identifier is kept when present and
/// drawn fresh when empty; every other field is unchanged.
pub fn ensure_slide_id(slide: CarouselSlide) -> (r: CarouselSlide)
    ensures
        slide.id@.len() > 0 ==> r.id@ == slide.id@,
        slide.id@.len() == 0 ==> r.id@.len() == 36,
        r.slide_type@ == slide.slide_type@,
        r.content@ == slide.content@,
        r.image_url == slide.image_url,
        r.style == slide.style,
        r.order == slide.order,
{
    let mut slide = slide;
    if slide.id.as_str().is_empty() {
        slide.id = random_id_candidate();
    }
    slide
}

/// A generated copy record: a drawn identifier, the placeholder content
/// for the request, no variations and no rating yet.
pub fn generate_copy_result(request: CopyRequest, created_at: i64) -> (r: CopyResult)
    ensures
        r.id@.len() == 36,
        r.content@ == spec_copy_text(request),
        r.request == request,
        r.variations@.len() == 0,
        r.created_at == created_at,
        r.rating is None,
{
    let content = copy_placeholder_text(&request);
    CopyResult {
        id: random_id_candidate(),
        request,
        content,
        variations: Vec::new(),
        created_at,
        rating: Option::None,
    }
}

} // verus!
