use vstd::prelude::*;
use crate::json::Json;
use crate::json::JsonValue;
use crate::json::lemma_fields_view_index;
use crate::json::lemma_vals_view_index;
use crate::json::obj_get;
use crate::json::opt_str_member;
use crate::json::vals_view;

verus! {

/// An image-generation request: the prompt and how many images to draw.
pub struct ChatGptRequestImagesGenerations {
    pub prompt: String,
    pub n: i64,
    pub size: Option<String>,
    pub response_format: Option<String>,
}

/// The model of an image-generation request.
pub struct ImagesGenerationsView {
    pub prompt: Seq<char>,
    pub n: int,
    pub size: Option<Seq<char>>,
    pub response_format: Option<Seq<char>>,
}

impl View for ChatGptRequestImagesGenerations {
    type V = ImagesGenerationsView;

    open spec fn view(&self) -> ImagesGenerationsView {
        ImagesGenerationsView {
            prompt: self.prompt@,
            n: self.n as int,
            size: self.size.deep_view(),
            response_format: self.response_format.deep_view(),
        }
    }
}

/// The JSON body of an image-generation request: prompt and n always, each
/// optional member only where it is set.
pub open spec fn images_generations_json(v: ImagesGenerationsView) -> Json {
    Json::Obj(
        seq![("prompt"@, Json::Str(v.prompt)), ("n"@, Json::Int(v.n))] + opt_str_member(
            "size"@,
            v.size,
        ) + opt_str_member("response_format"@, v.response_format),
    )
}

impl ChatGptRequestImagesGenerations {
    /// A request for `n` images of `prompt`, with nothing optional set.
    pub fn new(prompt: &str, n: i64) -> (r: Self)
        ensures
            r.prompt@ == prompt@,
            r.n == n,
            r.size is None,
            r.response_format is None,
    {
        Self { prompt: prompt.to_owned(), n, size: None, response_format: None }
    }

    /// Asks for the images in the given format, for example as base64
    /// payloads rather than URLs.
    pub fn set_response_format(&mut self, format: &str)
        ensures
            final(self).response_format matches Some(f) && f@ == format@,
            final(self).prompt == old(self).prompt,
            final(self).n == old(self).n,
            final(self).size == old(self).size,
    {
        self.response_format = Some(format.to_owned());
    }

    /// The JSON body of the request, unset members omitted.
    pub fn to_value(&self) -> (r: JsonValue)
        ensures
            r@ == images_generations_json(self@),
    {
        let mut fields: Vec<(String, JsonValue)> = Vec::new();
        fields.push(("prompt".to_owned(), JsonValue::Str(self.prompt.clone())));
        fields.push(("n".to_owned(), JsonValue::Int(self.n)));
        match &self.size {
            Option::Some(s) => {
                fields.push(("size".to_owned(), JsonValue::Str(s.clone())));
            },
            Option::None => {},
        }
        match &self.response_format {
            Option::Some(s) => {
                fields.push(("response_format".to_owned(), JsonValue::Str(s.clone())));
            },
            Option::None => {},
        }
        let r = JsonValue::Obj(fields);
        proof {
            lemma_fields_view_index(fields@);
            assert(r@ matches Json::Obj(fs) && fs =~= images_generations_json(self@)->Obj_0);
        }
        r
    }
}

/// An image-edit request: the image file to edit, the prompt, and how many
/// edited images to draw. A mask file may restrict where the edit applies.
pub struct ChatGptRequestImagesEdits {
    pub image: String,
    pub prompt: String,
    pub n: i64,
    pub mask: Option<String>,
}

/// The model of an image-edit request.
pub struct ImagesEditsView {
    pub image: Seq<char>,
    pub prompt: Seq<char>,
    pub n: int,
    pub mask: Option<Seq<char>>,
}

impl View for ChatGptRequestImagesEdits {
    type V = ImagesEditsView;

    open spec fn view(&self) -> ImagesEditsView {
        ImagesEditsView {
            image: self.image@,
            prompt: self.prompt@,
            n: self.n as int,
            mask: self.mask.deep_view(),
        }
    }
}

/// The JSON body of an image-edit request: image, prompt and n always, the
/// mask member only where one is set.
pub open spec fn images_edits_json(v: ImagesEditsView) -> Json {
    Json::Obj(
        seq![
            ("image"@, Json::Str(v.image)),
            ("prompt"@, Json::Str(v.prompt)),
            ("n"@, Json::Int(v.n)),
        ] + opt_str_member("mask"@, v.mask),
    )
}

impl ChatGptRequestImagesEdits {
    /// A request to edit the image at `image` as `prompt` asks, `n` times.
    pub fn new(image: &str, prompt: &str, n: i64) -> (r: Self)
        ensures
            r.image@ == image@,
            r.prompt@ == prompt@,
            r.n == n,
            r.mask is None,
    {
        Self { image: image.to_owned(), prompt: prompt.to_owned(), n, mask: None }
    }

    /// The JSON body of the request, the unset mask member omitted.
    pub fn to_value(&self) -> (r: JsonValue)
        ensures
            r@ == images_edits_json(self@),
    {
        let mut fields: Vec<(String, JsonValue)> = Vec::new();
        fields.push(("image".to_owned(), JsonValue::Str(self.image.clone())));
        fields.push(("prompt".to_owned(), JsonValue::Str(self.prompt.clone())));
        fields.push(("n".to_owned(), JsonValue::Int(self.n)));
        match &self.mask {
            Option::Some(s) => {
                fields.push(("mask".to_owned(), JsonValue::Str(s.clone())));
            },
            Option::None => {},
        }
        let r = JsonValue::Obj(fields);
        proof {
            lemma_fields_view_index(fields@);
            assert(r@ matches Json::Obj(fs) && fs =~= images_edits_json(self@)->Obj_0);
        }
        r
    }
}

/// An image-edit request always has a form: the image and mask members
/// hold string paths, and the one non-string member, n, is not a file
/// field.
pub proof fn lemma_images_edits_form_owed(v: ImagesEditsView)
    ensures
        crate::form::form_of(images_edits_json(v), seq!["image"@, "mask"@]) is Some,
{
    reveal_strlit("image");
    reveal_strlit("mask");
    reveal_strlit("n");
    let files = seq!["image"@, "mask"@];
    let fs = images_edits_json(v)->Obj_0;
    let base = seq![
        ("image"@, Json::Str(v.image)),
        ("prompt"@, Json::Str(v.prompt)),
        ("n"@, Json::Int(v.n)),
    ];
    assert("n"@ != "image"@) by {
        assert("n"@.len() == 1);
        assert("image"@.len() == 5);
    }
    assert("n"@ != "mask"@) by {
        assert("n"@.len() == 1);
        assert("mask"@.len() == 4);
    }
    assert(!files.contains("n"@)) by {
        if files.contains("n"@) {
            let j = choose|j: int| 0 <= j < files.len() && files[j] == "n"@;
            assert(files[0] == "image"@);
            assert(files[1] == "mask"@);
        }
    }
    assert forall|i: int|
        0 <= i < fs.len() && files.contains((#[trigger] fs[i]).0) implies fs[i].1 is Str by {
        match v.mask {
            Option::None => {
                assert(fs =~= base);
            },
            Option::Some(m) => {
                assert(fs =~= base.push(("mask"@, Json::Str(m))));
            },
        }
    }
    crate::form::lemma_form_parts_total(fs, files);
}

/// An image-variation request: the image file to vary and how many
/// variations to draw.
pub struct ChatGptRequestImagesVariation {
    pub image: String,
    pub n: i64,
}

/// The model of an image-variation request.
pub struct ImagesVariationView {
    pub image: Seq<char>,
    pub n: int,
}

impl View for ChatGptRequestImagesVariation {
    type V = ImagesVariationView;

    open spec fn view(&self) -> ImagesVariationView {
        ImagesVariationView { image: self.image@, n: self.n as int }
    }
}

/// The JSON body of an image-variation request.
pub open spec fn images_variation_json(v: ImagesVariationView) -> Json {
    Json::Obj(seq![("image"@, Json::Str(v.image)), ("n"@, Json::Int(v.n))])
}

impl ChatGptRequestImagesVariation {
    /// A request for `n` variations of the image at `image`.
    pub fn new(image: &str, n: i64) -> (r: Self)
        ensures
            r.image@ == image@,
            r.n == n,
    {
        Self { image: image.to_owned(), n }
    }

    /// The JSON body of the request.
    pub fn to_value(&self) -> (r: JsonValue)
        ensures
            r@ == images_variation_json(self@),
    {
        let mut fields: Vec<(String, JsonValue)> = Vec::new();
        fields.push(("image".to_owned(), JsonValue::Str(self.image.clone())));
        fields.push(("n".to_owned(), JsonValue::Int(self.n)));
        let r = JsonValue::Obj(fields);
        proof {
            lemma_fields_view_index(fields@);
            assert(r@ matches Json::Obj(fs) && fs =~= images_variation_json(self@)->Obj_0);
        }
        r
    }
}

/// An image-variation request always has a form: the image member holds a
/// string path, and the one non-string member, n, is not a file field.
pub proof fn lemma_images_variation_form_owed(v: ImagesVariationView)
    ensures
        crate::form::form_of(images_variation_json(v), seq!["image"@]) is Some,
{
    reveal_strlit("image");
    reveal_strlit("n");
    let files = seq!["image"@];
    let fs = images_variation_json(v)->Obj_0;
    assert("n"@ != "image"@) by {
        assert("n"@.len() == 1);
        assert("image"@.len() == 5);
    }
    assert(!files.contains("n"@)) by {
        if files.contains("n"@) {
            let j = choose|j: int| 0 <= j < files.len() && files[j] == "n"@;
            assert(files[0] == "image"@);
        }
    }
    assert forall|i: int|
        0 <= i < fs.len() && files.contains((#[trigger] fs[i]).0) implies fs[i].1 is Str by {
        assert(fs[0] == ("image"@, Json::Str(v.image)));
        assert(fs[1] == ("n"@, Json::Int(v.n)));
    }
    crate::form::lemma_form_parts_total(fs, files);
}

/// The string members named `key` of the elements of a response's `data`
/// array, in order; elements without such a member are passed over.
pub open spec fn collect_strings(es: Seq<Json>, key: Seq<char>) -> Seq<Seq<char>>
    decreases es,
{
    if es.len() == 0 {
        Seq::empty()
    } else {
        collect_strings(es.drop_last(), key) + (match obj_get(es.last(), key) {
            Option::Some(Json::Str(s)) => seq![s],
            _ => Seq::empty(),
        })
    }
}

/// What `key` names in each element of the `data` array of a response body:
/// empty where there is no `data` array.
pub open spec fn data_strings(j: Json, key: Seq<char>) -> Seq<Seq<char>> {
    match obj_get(j, "data"@) {
        Option::Some(Json::Arr(es)) => collect_strings(es, key),
        _ => Seq::empty(),
    }
}

proof fn lemma_collect_strings_push(es: Seq<Json>, key: Seq<char>, x: Json)
    ensures
        collect_strings(es.push(x), key) == collect_strings(es, key) + (match obj_get(x, key) {
            Option::Some(Json::Str(s)) => seq![s],
            _ => Seq::<Seq<char>>::empty(),
        }),
{
    assert(es.push(x).drop_last() =~= es);
    assert(es.push(x).last() == x);
}

/// The string members named `key` in the elements of the body's `data`
/// array.
fn collect_data(value: &JsonValue, key: &str) -> (r: Vec<String>)
    ensures
        r.deep_view() == data_strings(value@, key@),
{
    let mut out: Vec<String> = Vec::new();
    match value.get("data") {
        Option::Some(JsonValue::Arr(es)) => {
            let mut i: usize = 0;
            proof {
                lemma_vals_view_index(es@);
                assert(vals_view(es@).take(0) =~= Seq::<Json>::empty());
            }
            while i < es.len()
                invariant
                    i <= es.len(),
                    vals_view(es@).len() == es@.len(),
                    forall|k: int|
                        0 <= k < es@.len() ==> #[trigger] vals_view(es@)[k] == crate::json::json_view(
                            es@[k],
                        ),
                    out.deep_view() =~= collect_strings(vals_view(es@).take(i as int), key@),
                decreases es.len() - i,
            {
                proof {
                    assert(vals_view(es@).take(i + 1 as int) =~= vals_view(es@).take(
                        i as int,
                    ).push(vals_view(es@)[i as int]));
                    lemma_collect_strings_push(
                        vals_view(es@).take(i as int),
                        key@,
                        vals_view(es@)[i as int],
                    );
                }
                match es[i].get(key) {
                    Option::Some(JsonValue::Str(s)) => {
                        let c = s.clone();
                        proof {
                            assert(out.deep_view().push(c@) =~= collect_strings(
                                vals_view(es@).take(i + 1 as int),
                                key@,
                            ));
                        }
                        out.push(c);
                    },
                    _ => {},
                }
                i = i + 1;
            }
            proof {
                assert(vals_view(es@).take(es@.len() as int) =~= vals_view(es@));
            }
        },
        _ => {},
    }
    out
}

/// The body that the image-generation endpoint answered with.
pub struct ChatGptResponseImagesGenerations {
    value: JsonValue,
}

impl View for ChatGptResponseImagesGenerations {
    type V = Json;

    closed spec fn view(&self) -> Json {
        self.value@
    }
}

impl ChatGptResponseImagesGenerations {
    /// Wraps a parsed response body.
    pub fn new(value: JsonValue) -> (r: Self)
        ensures
            r@ == value@,
    {
        Self { value }
    }

    /// The wrapped body.
    pub fn to_value(&self) -> (r: &JsonValue)
        ensures
            r@ == self@,
    {
        &self.value
    }

    /// The URLs of the generated images.
    pub fn get_urls(&self) -> (r: Vec<String>)
        ensures
            r.deep_view() == data_strings(self@, "url"@),
    {
        collect_data(&self.value, "url")
    }

    /// The base64 payloads of the generated images.
    pub fn b64_jsons(&self) -> (r: Vec<String>)
        ensures
            r.deep_view() == data_strings(self@, "b64_json"@),
    {
        collect_data(&self.value, "b64_json")
    }
}

/// The body that the image-edit endpoint answered with.
pub struct ChatGptResponseImagesEdits {
    value: JsonValue,
}

impl View for ChatGptResponseImagesEdits {
    type V = Json;

    closed spec fn view(&self) -> Json {
        self.value@
    }
}

impl ChatGptResponseImagesEdits {
    /// Wraps a parsed response body.
    pub fn new(value: JsonValue) -> (r: Self)
        ensures
            r@ == value@,
    {
        Self { value }
    }

    /// The wrapped body.
    pub fn to_value(&self) -> (r: &JsonValue)
        ensures
            r@ == self@,
    {
        &self.value
    }
}

/// The body that the image-variation endpoint answered with.
pub struct ChatGptResponseImagesVariation {
    value: JsonValue,
}

impl View for ChatGptResponseImagesVariation {
    type V = Json;

    closed spec fn view(&self) -> Json {
        self.value@
    }
}

impl ChatGptResponseImagesVariation {
    /// Wraps a parsed response body.
    pub fn new(value: JsonValue) -> (r: Self)
        ensures
            r@ == value@,
    {
        Self { value }
    }

    /// The wrapped body.
    pub fn to_value(&self) -> (r: &JsonValue)
        ensures
            r@ == self@,
    {
        &self.value
    }
}

} // verus!
