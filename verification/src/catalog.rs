//! The static catalog of segmentation models.
//!
//! Each descriptor names a model, its constituent files (name, source URL,
//! advisory size in megabytes) and whether it is the default choice. The
//! catalog is immutable; exactly one descriptor is the default, and it
//! stands first.

use vstd::prelude::*;
use vstd::string::*;

verus! {

/// One constituent file of a model.
pub struct ModelFile {
    pub name: String,
    pub url: String,
    pub size_mb: u32,
}

/// A model descriptor.
pub struct ModelInfo {
    pub id: String,
    pub name: String,
    pub description: String,
    pub files: Vec<ModelFile>,
    pub is_default: bool,
}

#[verifier::ext_equal]
pub ghost struct ModelFileView {
    pub name: Seq<char>,
    pub url: Seq<char>,
    pub size_mb: u32,
}

#[verifier::ext_equal]
pub ghost struct ModelInfoView {
    pub id: Seq<char>,
    pub name: Seq<char>,
    pub description: Seq<char>,
    pub files: Seq<ModelFileView>,
    pub is_default: bool,
}

impl View for ModelFile {
    type V = ModelFileView;

    open spec fn view(&self) -> ModelFileView {
        ModelFileView { name: self.name@, url: self.url@, size_mb: self.size_mb }
    }
}

impl View for ModelInfo {
    type V = ModelInfoView;

    open spec fn view(&self) -> ModelInfoView {
        ModelInfoView {
            id: self.id@,
            name: self.name@,
            description: self.description@,
            files: Seq::new(self.files@.len(), |i: int| self.files@[i]@),
            is_default: self.is_default,
        }
    }
}

/// The whole catalog, as specification data. The executable catalog is
/// proved to match it entry for entry.
pub open spec fn spec_models() -> Seq<ModelInfoView> {
    seq![
        ModelInfoView {
            id: "u2net"@,
            name: "U2Net"@,
            description: "A pre-trained model for general use cases."@,
            files: seq![
                ModelFileView {
                    name: "u2net.onnx"@,
                    url: "https://github.com/danielgatis/rembg/releases/download/v0.0.0/u2net.onnx"@,
                    size_mb: 176,
                },
            ],
            is_default: true,
        },
        ModelInfoView {
            id: "u2netp"@,
            name: "U2Net-P"@,
            description: "A lightweight version of u2net model."@,
            files: seq![
                ModelFileView {
                    name: "u2netp.onnx"@,
                    url: "https://github.com/danielgatis/rembg/releases/download/v0.0.0/u2netp.onnx"@,
                    size_mb: 4,
                },
            ],
            is_default: false,
        },
        ModelInfoView {
            id: "u2net_human_seg"@,
            name: "U2Net Human Seg"@,
            description: "A pre-trained model for human segmentation."@,
            files: seq![
                ModelFileView {
                    name: "u2net_human_seg.onnx"@,
                    url: "https://github.com/danielgatis/rembg/releases/download/v0.0.0/u2net_human_seg.onnx"@,
                    size_mb: 176,
                },
            ],
            is_default: false,
        },
        ModelInfoView {
            id: "u2net_cloth_seg"@,
            name: "U2Net Cloth Seg"@,
            description: "A pre-trained model for cloth parsing (Upper body, Lower body, Full body)."@,
            files: seq![
                ModelFileView {
                    name: "u2net_cloth_seg.onnx"@,
                    url: "https://github.com/danielgatis/rembg/releases/download/v0.0.0/u2net_cloth_seg.onnx"@,
                    size_mb: 176,
                },
            ],
            is_default: false,
        },
        ModelInfoView {
            id: "silueta"@,
            name: "Silueta"@,
            description: "Same as u2net but reduced to 43MB."@,
            files: seq![
                ModelFileView {
                    name: "silueta.onnx"@,
                    url: "https://github.com/danielgatis/rembg/releases/download/v0.0.0/silueta.onnx"@,
                    size_mb: 43,
                },
            ],
            is_default: false,
        },
        ModelInfoView {
            id: "isnet-general-use"@,
            name: "ISNet General"@,
            description: "A new pre-trained model for general use cases."@,
            files: seq![
                ModelFileView {
                    name: "isnet-general-use.onnx"@,
                    url: "https://github.com/danielgatis/rembg/releases/download/v0.0.0/isnet-general-use.onnx"@,
                    size_mb: 176,
                },
            ],
            is_default: false,
        },
        ModelInfoView {
            id: "isnet-anime"@,
            name: "ISNet Anime"@,
            description: "High-accuracy segmentation for anime characters."@,
            files: seq![
                ModelFileView {
                    name: "isnet-anime.onnx"@,
                    url: "https://github.com/danielgatis/rembg/releases/download/v0.0.0/isnet-anime.onnx"@,
                    size_mb: 176,
                },
            ],
            is_default: false,
        },
        ModelInfoView {
            id: "sam"@,
            name: "SAM"@,
            description: "Segment Anything Model for any use cases."@,
            files: seq![
                ModelFileView {
                    name: "sam_vit_b_01ec64-encoder.onnx"@,
                    url: "https://github.com/danielgatis/rembg/releases/download/v0.0.0/vit_b-encoder-quant.onnx"@,
                    size_mb: 180,
                },
                ModelFileView {
                    name: "sam_vit_b_01ec64-decoder.onnx"@,
                    url: "https://github.com/danielgatis/rembg/releases/download/v0.0.0/vit_b-decoder-quant.onnx"@,
                    size_mb: 16,
                },
            ],
            is_default: false,
        },
        ModelInfoView {
            id: "birefnet-general"@,
            name: "BiRefNet General"@,
            description: "A pre-trained model for general use cases."@,
            files: seq![
                ModelFileView {
                    name: "BiRefNet-general-epoch_244.onnx"@,
                    url: "https://github.com/danielgatis/rembg/releases/download/v0.0.0/BiRefNet-general-epoch_244.onnx"@,
                    size_mb: 223,
                },
            ],
            is_default: false,
        },
        ModelInfoView {
            id: "birefnet-general-lite"@,
            name: "BiRefNet General Lite"@,
            description: "A light pre-trained model for general use cases."@,
            files: seq![
                ModelFileView {
                    name: "BiRefNet-general-bb_swin_v1_tiny-epoch_232.onnx"@,
                    url: "https://github.com/danielgatis/rembg/releases/download/v0.0.0/BiRefNet-general-bb_swin_v1_tiny-epoch_232.onnx"@,
                    size_mb: 130,
                },
            ],
            is_default: false,
        },
        ModelInfoView {
            id: "birefnet-portrait"@,
            name: "BiRefNet Portrait"@,
            description: "A pre-trained model for human portraits."@,
            files: seq![
                ModelFileView {
                    name: "BiRefNet-portrait-epoch_150.onnx"@,
                    url: "https://github.com/danielgatis/rembg/releases/download/v0.0.0/BiRefNet-portrait-epoch_150.onnx"@,
                    size_mb: 223,
                },
            ],
            is_default: false,
        },
        ModelInfoView {
            id: "birefnet-dis"@,
            name: "BiRefNet DIS"@,
            description: "A pre-trained model for dichotomous image segmentation (DIS)."@,
            files: seq![
                ModelFileView {
                    name: "BiRefNet-DIS-epoch_590.onnx"@,
                    url: "https://github.com/danielgatis/rembg/releases/download/v0.0.0/BiRefNet-DIS-epoch_590.onnx"@,
                    size_mb: 223,
                },
            ],
            is_default: false,
        },
        ModelInfoView {
            id: "birefnet-hrsod"@,
            name: "BiRefNet HRSOD"@,
            description: "A pre-trained model for high-resolution salient object detection (HRSOD)."@,
            files: seq![
                ModelFileView {
                    name: "BiRefNet-HRSOD_DHU-epoch_115.onnx"@,
                    url: "https://github.com/danielgatis/rembg/releases/download/v0.0.0/BiRefNet-HRSOD_DHU-epoch_115.onnx"@,
                    size_mb: 223,
                },
            ],
            is_default: false,
        },
        ModelInfoView {
            id: "birefnet-cod"@,
            name: "BiRefNet COD"@,
            description: "A pre-trained model for concealed object detection (COD)."@,
            files: seq![
                ModelFileView {
                    name: "BiRefNet-COD-epoch_125.onnx"@,
                    url: "https://github.com/danielgatis/rembg/releases/download/v0.0.0/BiRefNet-COD-epoch_125.onnx"@,
                    size_mb: 223,
                },
            ],
            is_default: false,
        },
        ModelInfoView {
            id: "birefnet-massive"@,
            name: "BiRefNet Massive"@,
            description: "A pre-trained model with massive dataset."@,
            files: seq![
                ModelFileView {
                    name: "BiRefNet-massive-epoch_240.onnx"@,
                    url: "https://github.com/danielgatis/rembg/releases/download/v0.0.0/BiRefNet-massive-epoch_240.onnx"@,
                    size_mb: 223,
                },
            ],
            is_default: false,
        },
    ]
}

fn mk_file(name: &str, url: &str, size_mb: u32) -> (r: ModelFile)
    ensures
        r@ == (ModelFileView { name: name@, url: url@, size_mb }),
{
    ModelFile { name: String::from_str(name), url: String::from_str(url), size_mb }
}

fn mk_model(id: &str, name: &str, description: &str, files: Vec<ModelFile>, is_default: bool) -> (r:
    ModelInfo)
    ensures
        r@ == (ModelInfoView {
            id: id@,
            name: name@,
            description: description@,
            files: Seq::new(files@.len(), |i: int| files@[i]@),
            is_default,
        }),
{
    ModelInfo {
        id: String::from_str(id),
        name: String::from_str(name),
        description: String::from_str(description),
        files,
        is_default,
    }
}

/// The catalog, entry for entry equal to `spec_models()`; its sole default
/// descriptor stands at index 0.
pub fn get_all_models() -> (r: Vec<ModelInfo>)
    ensures
        r@.len() == spec_models().len(),
        forall|i: int| 0 <= i < r@.len() ==> #[trigger] r@[i]@ == spec_models()[i],
{
    let mut v: Vec<ModelInfo> = Vec::new();
    v.push(mk_model(
        "u2net",
        "U2Net",
        "A pre-trained model for general use cases.",
        vec![mk_file(
            "u2net.onnx",
            "https://github.com/danielgatis/rembg/releases/download/v0.0.0/u2net.onnx",
            176,
        )],
        true,
    ));
    v.push(mk_model(
        "u2netp",
        "U2Net-P",
        "A lightweight version of u2net model.",
        vec![mk_file(
            "u2netp.onnx",
            "https://github.com/danielgatis/rembg/releases/download/v0.0.0/u2netp.onnx",
            4,
        )],
        false,
    ));
    v.push(mk_model(
        "u2net_human_seg",
        "U2Net Human Seg",
        "A pre-trained model for human segmentation.",
        vec![mk_file(
            "u2net_human_seg.onnx",
            "https://github.com/danielgatis/rembg/releases/download/v0.0.0/u2net_human_seg.onnx",
            176,
        )],
        false,
    ));
    v.push(mk_model(
        "u2net_cloth_seg",
        "U2Net Cloth Seg",
        "A pre-trained model for cloth parsing (Upper body, Lower body, Full body).",
        vec![mk_file(
            "u2net_cloth_seg.onnx",
            "https://github.com/danielgatis/rembg/releases/download/v0.0.0/u2net_cloth_seg.onnx",
            176,
        )],
        false,
    ));
    v.push(mk_model(
        "silueta",
        "Silueta",
        "Same as u2net but reduced to 43MB.",
        vec![mk_file(
            "silueta.onnx",
            "https://github.com/danielgatis/rembg/releases/download/v0.0.0/silueta.onnx",
            43,
        )],
        false,
    ));
    v.push(mk_model(
        "isnet-general-use",
        "ISNet General",
        "A new pre-trained model for general use cases.",
        vec![mk_file(
            "isnet-general-use.onnx",
            "https://github.com/danielgatis/rembg/releases/download/v0.0.0/isnet-general-use.onnx",
            176,
        )],
        false,
    ));
    v.push(mk_model(
        "isnet-anime",
        "ISNet Anime",
        "High-accuracy segmentation for anime characters.",
        vec![mk_file(
            "isnet-anime.onnx",
            "https://github.com/danielgatis/rembg/releases/download/v0.0.0/isnet-anime.onnx",
            176,
        )],
        false,
    ));
    v.push(mk_model(
        "sam",
        "SAM",
        "Segment Anything Model for any use cases.",
        vec![
            mk_file(
                "sam_vit_b_01ec64-encoder.onnx",
                "https://github.com/danielgatis/rembg/releases/download/v0.0.0/vit_b-encoder-quant.onnx",
                180,
            ),
            mk_file(
                "sam_vit_b_01ec64-decoder.onnx",
                "https://github.com/danielgatis/rembg/releases/download/v0.0.0/vit_b-decoder-quant.onnx",
                16,
            ),
        ],
        false,
    ));
    v.push(mk_model(
        "birefnet-general",
        "BiRefNet General",
        "A pre-trained model for general use cases.",
        vec![mk_file(
            "BiRefNet-general-epoch_244.onnx",
            "https://github.com/danielgatis/rembg/releases/download/v0.0.0/BiRefNet-general-epoch_244.onnx",
            223,
        )],
        false,
    ));
    v.push(mk_model(
        "birefnet-general-lite",
        "BiRefNet General Lite",
        "A light pre-trained model for general use cases.",
        vec![mk_file(
            "BiRefNet-general-bb_swin_v1_tiny-epoch_232.onnx",
            "https://github.com/danielgatis/rembg/releases/download/v0.0.0/BiRefNet-general-bb_swin_v1_tiny-epoch_232.onnx",
            130,
        )],
        false,
    ));
    v.push(mk_model(
        "birefnet-portrait",
        "BiRefNet Portrait",
        "A pre-trained model for human portraits.",
        vec![mk_file(
            "BiRefNet-portrait-epoch_150.onnx",
            "https://github.com/danielgatis/rembg/releases/download/v0.0.0/BiRefNet-portrait-epoch_150.onnx",
            223,
        )],
        false,
    ));
    v.push(mk_model(
        "birefnet-dis",
        "BiRefNet DIS",
        "A pre-trained model for dichotomous image segmentation (DIS).",
        vec![mk_file(
            "BiRefNet-DIS-epoch_590.onnx",
            "https://github.com/danielgatis/rembg/releases/download/v0.0.0/BiRefNet-DIS-epoch_590.onnx",
            223,
        )],
        false,
    ));
    v.push(mk_model(
        "birefnet-hrsod",
        "BiRefNet HRSOD",
        "A pre-trained model for high-resolution salient object detection (HRSOD).",
        vec![mk_file(
            "BiRefNet-HRSOD_DHU-epoch_115.onnx",
            "https://github.com/danielgatis/rembg/releases/download/v0.0.0/BiRefNet-HRSOD_DHU-epoch_115.onnx",
            223,
        )],
        false,
    ));
    v.push(mk_model(
        "birefnet-cod",
        "BiRefNet COD",
        "A pre-trained model for concealed object detection (COD).",
        vec![mk_file(
            "BiRefNet-COD-epoch_125.onnx",
            "https://github.com/danielgatis/rembg/releases/download/v0.0.0/BiRefNet-COD-epoch_125.onnx",
            223,
        )],
        false,
    ));
    v.push(mk_model(
        "birefnet-massive",
        "BiRefNet Massive",
        "A pre-trained model with massive dataset.",
        vec![mk_file(
            "BiRefNet-massive-epoch_240.onnx",
            "https://github.com/danielgatis/rembg/releases/download/v0.0.0/BiRefNet-massive-epoch_240.onnx",
            223,
        )],
        false,
    ));
    v
}

/// Exactly one descriptor in the catalog is the default, and it stands at
/// index 0.
pub proof fn lemma_exactly_one_default()
    ensures
        spec_models().len() == 15,
        forall|i: int|
            0 <= i < spec_models().len()
                ==> ((#[trigger] spec_models()[i]).is_default <==> i == 0),
{
}

/// Every catalog entry names at least one constituent file.
pub proof fn lemma_models_have_files()
    ensures
        forall|i: int|
            0 <= i < spec_models().len() ==> (#[trigger] spec_models()[i]).files.len() >= 1,
{
}

/// The first catalog entry whose id is `id`, if any.
pub open spec fn spec_find(models: Seq<ModelInfoView>, id: Seq<char>) -> Option<ModelInfoView>
    decreases models.len(),
{
    if models.len() == 0 {
        None
    } else if models[0].id == id {
        Some(models[0])
    } else {
        spec_find(models.drop_first(), id)
    }
}

/// Whatever `spec_find` returns is an entry of the catalog it searched.
pub proof fn lemma_find_is_entry(models: Seq<ModelInfoView>, id: Seq<char>)
    ensures
        spec_find(models, id) matches Some(m) ==> exists|j: int|
            0 <= j < models.len() && #[trigger] models[j] == m,
    decreases models.len(),
{
    if models.len() > 0 {
        if models[0].id == id {
            assert(models[0] == spec_find(models, id).unwrap());
        } else {
            lemma_find_is_entry(models.drop_first(), id);
            if spec_find(models, id) is Some {
                let m = spec_find(models, id).unwrap();
                let j = choose|j: int|
                    0 <= j < models.drop_first().len() && #[trigger] models.drop_first()[j] == m;
                assert(models[j + 1] == m);
            }
        }
    }
}

/// The default descriptor: the one whose `is_default` flag is set.
pub fn get_default_model() -> (r: ModelInfo)
    ensures
        r@ == spec_models()[0],
        r@.is_default,
{
    let mut v = get_all_models();
    proof {
        lemma_exactly_one_default();
    }
    v.remove(0)
}

/// Look a descriptor up by its id. `None` exactly when no catalog entry
/// carries the id.
pub fn get_model_by_id(id: &str) -> (r: Option<ModelInfo>)
    ensures
        r is Some <==> spec_find(spec_models(), id@) is Some,
        r matches Some(m) ==> Some(m@) == spec_find(spec_models(), id@),
{
    let key = String::from_str(id);
    let mut v = get_all_models();
    let n = v.len();
    let mut i: usize = 0;
    proof {
        assert(spec_models().skip(0) =~= spec_models());
    }
    while i < n
        invariant
            i <= n,
            n == v@.len(),
            v@.len() == spec_models().len(),
            forall|k: int| 0 <= k < v@.len() ==> #[trigger] v@[k]@ == spec_models()[k],
            key@ == id@,
            spec_find(spec_models(), id@) == spec_find(spec_models().skip(i as int), id@),
        decreases n - i,
    {
        let hit = v[i].id == key;
        proof {
            assert(v@[i as int]@ == spec_models()[i as int]);
            assert(spec_models().skip(i as int).len() == spec_models().len() - i);
            assert(spec_models().skip(i as int)[0] == spec_models()[i as int]);
            assert(spec_models().skip(i as int).drop_first() =~= spec_models().skip(i + 1));
            assert(hit == (spec_models()[i as int].id == id@));
        }
        if hit {
            let m = v.remove(i);
            proof {
                assert(spec_find(spec_models().skip(i as int), id@)
                    == Some(spec_models()[i as int]));
            }
            return Some(m);
        }
        i = i + 1;
    }
    proof {
        assert(spec_models().skip(15).len() == 0);
    }
    None
}

} // verus!
