//! Choosing the shader variant for the graphics API in use.
//!
//! The program ships each shader in two variants, written for GLSL 1.20 and
//! for GLSL 1.50. Which one is handed to the GPU follows from the OpenGL
//! version the window was opened with. Both the step from OpenGL to GLSL and
//! the choice among the registered variants are made by the `shader_version`
//! crate; this module states what those calls return and proves which variant
//! comes out for every version.

use shader_version::glsl::GLSL;
use shader_version::OpenGL;
use shader_version::PickShader;
use shader_version::Shaders;
use vstd::prelude::*;

verus! {

/// A version of OpenGL.
#[allow(non_camel_case_types)]
#[derive(Clone, Copy, Debug, PartialEq, Eq)]
pub enum OpenGl {
    V2_0,
    V2_1,
    V3_0,
    V3_1,
    V3_2,
    V3_3,
    V4_0,
    V4_1,
    V4_2,
    V4_3,
    V4_4,
    V4_5,
}

/// A version of the OpenGL shading language.
#[allow(non_camel_case_types)]
#[derive(Clone, Copy, Debug, PartialEq, Eq)]
pub enum Glsl {
    V1_10,
    V1_20,
    V1_30,
    V1_40,
    V1_50,
    V3_30,
    V4_00,
    V4_10,
    V4_20,
    V4_30,
    V4_40,
    V4_50,
}

/// Number of GLSL versions.
pub const GLSL_VERSIONS: u8 = 12;

impl Glsl {
    /// The position of the version among all versions, oldest first. Versions
    /// are ordered by their rank.
    pub open spec fn rank(self) -> int {
        match self {
            Glsl::V1_10 => 0,
            Glsl::V1_20 => 1,
            Glsl::V1_30 => 2,
            Glsl::V1_40 => 3,
            Glsl::V1_50 => 4,
            Glsl::V3_30 => 5,
            Glsl::V4_00 => 6,
            Glsl::V4_10 => 7,
            Glsl::V4_20 => 8,
            Glsl::V4_30 => 9,
            Glsl::V4_40 => 10,
            Glsl::V4_50 => 11,
        }
    }

    /// The version with the given rank, if there is one.
    pub fn from_rank(rank: u8) -> (version: Option<Glsl>)
        ensures
            rank < GLSL_VERSIONS ==> version is Some && version.unwrap().rank() == rank,
            rank >= GLSL_VERSIONS ==> version is None,
    {
        if rank == 0 {
            Some(Glsl::V1_10)
        } else if rank == 1 {
            Some(Glsl::V1_20)
        } else if rank == 2 {
            Some(Glsl::V1_30)
        } else if rank == 3 {
            Some(Glsl::V1_40)
        } else if rank == 4 {
            Some(Glsl::V1_50)
        } else if rank == 5 {
            Some(Glsl::V3_30)
        } else if rank == 6 {
            Some(Glsl::V4_00)
        } else if rank == 7 {
            Some(Glsl::V4_10)
        } else if rank == 8 {
            Some(Glsl::V4_20)
        } else if rank == 9 {
            Some(Glsl::V4_30)
        } else if rank == 10 {
            Some(Glsl::V4_40)
        } else if rank == 11 {
            Some(Glsl::V4_50)
        } else {
            None
        }
    }
}

/// The GLSL version that belongs to an OpenGL version.
pub open spec fn glsl_of(api: OpenGl) -> Glsl {
    match api {
        OpenGl::V2_0 => Glsl::V1_10,
        OpenGl::V2_1 => Glsl::V1_20,
        OpenGl::V3_0 => Glsl::V1_30,
        OpenGl::V3_1 => Glsl::V1_40,
        OpenGl::V3_2 => Glsl::V1_50,
        OpenGl::V3_3 => Glsl::V3_30,
        OpenGl::V4_0 => Glsl::V4_00,
        OpenGl::V4_1 => Glsl::V4_10,
        OpenGl::V4_2 => Glsl::V4_20,
        OpenGl::V4_3 => Glsl::V4_30,
        OpenGl::V4_4 => Glsl::V4_40,
        OpenGl::V4_5 => Glsl::V4_50,
    }
}

/// The rank of the oldest variant that may serve a GPU that wants the version
/// of rank `wanted`. A core profile (GLSL 1.50 and later) takes no variant
/// older than 1.50; before that any older variant will do.
pub open spec fn oldest_usable(wanted: int) -> int {
    if wanted < Glsl::V1_50.rank() {
        Glsl::V1_10.rank()
    } else {
        Glsl::V1_50.rank()
    }
}

/// The greatest rank in `registered` that lies between `low` and `wanted`,
/// both included, if there is one.
pub open spec fn closest(registered: Set<int>, low: int, wanted: int) -> Option<int>
    decreases wanted - low + 1,
{
    if wanted < low {
        None
    } else if registered.contains(wanted) {
        Some(wanted)
    } else {
        closest(registered, low, wanted - 1)
    }
}

/// The source that a table with the given entries yields for the version of
/// rank `wanted`: the one registered for the closest usable version.
pub open spec fn picked(entries: Map<int, Seq<char>>, wanted: int) -> Option<Seq<char>> {
    match closest(entries.dom(), oldest_usable(wanted), wanted) {
        Some(rank) => Some(entries[rank]),
        None => None,
    }
}

/// The source chosen for `version` when one variant is registered for GLSL
/// 1.20 and one for GLSL 1.50.
pub open spec fn selected(version: Glsl, glsl_120: Seq<char>, glsl_150: Seq<char>) -> Option<
    Seq<char>,
> {
    if version.rank() >= Glsl::V1_50.rank() {
        Some(glsl_150)
    } else if version.rank() >= Glsl::V1_20.rank() {
        Some(glsl_120)
    } else {
        None
    }
}

/// The text of a chosen source, if one was chosen.
pub open spec fn text_of(source: Option<&'static str>) -> Option<Seq<char>> {
    match source {
        Some(text) => Some(text@),
        None => None,
    }
}

/// `GLSL` of `shader_version`, made known so that it can stand in the table's
/// type. Nothing is claimed of its values.
#[verifier::external_type_specification]
#[verifier::external_body]
pub struct ExGlsl(GLSL);

/// `Shaders` of `shader_version`, made known so that a table can be held and
/// handed on. What a table holds is named by [`table_entries`].
#[verifier::external_type_specification]
#[verifier::external_body]
#[verifier::reject_recursive_types(V)]
#[verifier::reject_recursive_types(S)]
pub struct ExShaders<'a, V, S: 'a + ?Sized>(Shaders<'a, V, S>);

/// A table of shader sources by GLSL version, as `shader_version` keeps it.
pub type ShaderTable = Shaders<'static, GLSL, str>;

/// What a table holds: the source text registered for each version that has
/// one, the version given by its rank.
pub uninterp spec fn table_entries(table: ShaderTable) -> Map<int, Seq<char>>;

/// `OpenGL::to_glsl` of `shader_version`.
///
/// Trusted: for the OpenGL version of the same name as `api`, the call
/// returns the GLSL version of the same name as the one [`glsl_of`] lists.
/// The result is handed back as its position among the crate's GLSL
/// versions, which the crate declares oldest first.
#[verifier::external_body]
fn to_glsl_rank(api: OpenGl) -> (rank: u8)
    ensures
        rank == glsl_of(api).rank(),
{
    (match api {
        OpenGl::V2_0 => OpenGL::V2_0,
        OpenGl::V2_1 => OpenGL::V2_1,
        OpenGl::V3_0 => OpenGL::V3_0,
        OpenGl::V3_1 => OpenGL::V3_1,
        OpenGl::V3_2 => OpenGL::V3_2,
        OpenGl::V3_3 => OpenGL::V3_3,
        OpenGl::V4_0 => OpenGL::V4_0,
        OpenGl::V4_1 => OpenGL::V4_1,
        OpenGl::V4_2 => OpenGL::V4_2,
        OpenGl::V4_3 => OpenGL::V4_3,
        OpenGl::V4_4 => OpenGL::V4_4,
        OpenGl::V4_5 => OpenGL::V4_5,
    }).to_glsl() as u8
}

/// `Shaders::new` of `shader_version`.
///
/// Trusted: the new table holds nothing.
#[verifier::external_body]
fn table_new() -> (table: ShaderTable)
    ensures
        table_entries(table) == (Map::<int, Seq<char>>::empty()),
{
    Shaders::new()
}

/// `Shaders::set` of `shader_version`.
///
/// Trusted: the table afterwards maps `version` to `source` and is otherwise
/// as before; a source registered earlier for the same version is replaced.
#[verifier::external_body]
fn table_set(table: &mut ShaderTable, version: Glsl, source: &'static str)
    ensures
        table_entries(*final(table)) == table_entries(*old(table)).insert(version.rank(), source@),
{
    table.set(match version {
        Glsl::V1_10 => GLSL::V1_10,
        Glsl::V1_20 => GLSL::V1_20,
        Glsl::V1_30 => GLSL::V1_30,
        Glsl::V1_40 => GLSL::V1_40,
        Glsl::V1_50 => GLSL::V1_50,
        Glsl::V3_30 => GLSL::V3_30,
        Glsl::V4_00 => GLSL::V4_00,
        Glsl::V4_10 => GLSL::V4_10,
        Glsl::V4_20 => GLSL::V4_20,
        Glsl::V4_30 => GLSL::V4_30,
        Glsl::V4_40 => GLSL::V4_40,
        Glsl::V4_50 => GLSL::V4_50,
    }, source);
}

/// `PickShader::pick_shader` of `shader_version` for GLSL versions, the call
/// that `Shaders::get` consists of.
///
/// Trusted: among the registered versions that are no newer than `version`
/// and no older than [`oldest_usable`] allows, the call takes the newest and
/// returns its source; it returns `None` when there is no such version.
#[verifier::external_body]
fn table_pick(table: &ShaderTable, version: Glsl) -> (source: Option<&'static str>)
    ensures
        text_of(source) == picked(table_entries(*table), version.rank()),
{
    (match version {
        Glsl::V1_10 => GLSL::V1_10,
        Glsl::V1_20 => GLSL::V1_20,
        Glsl::V1_30 => GLSL::V1_30,
        Glsl::V1_40 => GLSL::V1_40,
        Glsl::V1_50 => GLSL::V1_50,
        Glsl::V3_30 => GLSL::V3_30,
        Glsl::V4_00 => GLSL::V4_00,
        Glsl::V4_10 => GLSL::V4_10,
        Glsl::V4_20 => GLSL::V4_20,
        Glsl::V4_30 => GLSL::V4_30,
        Glsl::V4_40 => GLSL::V4_40,
        Glsl::V4_50 => GLSL::V4_50,
    }).pick_shader(table)
}

/// The GLSL version that belongs to the OpenGL version `api`.
pub fn to_glsl(api: OpenGl) -> (version: Glsl)
    ensures
        version == glsl_of(api),
{
    Glsl::from_rank(to_glsl_rank(api)).unwrap()
}

/// The shader source for a GPU that speaks GLSL `version`, out of the two
/// variants that exist: `glsl_120`, written for GLSL 1.20, and `glsl_150`,
/// written for GLSL 1.50.
///
/// From 1.50 on the result is `glsl_150`; from 1.20 up to 1.40 it is
/// `glsl_120`; for 1.10 there is no variant and the result is `None`.
pub fn select_shader(version: Glsl, glsl_120: &'static str, glsl_150: &'static str) -> (source:
    Option<&'static str>)
    ensures
        text_of(source) == selected(version, glsl_120@, glsl_150@),
{
    let mut table = table_new();
    table_set(&mut table, Glsl::V1_20, glsl_120);
    table_set(&mut table, Glsl::V1_50, glsl_150);
    proof {
        lemma_two_variants(version, glsl_120@, glsl_150@);
    }
    table_pick(&table, version)
}

/// With one source registered for GLSL 1.20 and one for GLSL 1.50, the pick
/// for any version is what [`selected`] says.
pub proof fn lemma_two_variants(version: Glsl, glsl_120: Seq<char>, glsl_150: Seq<char>)
    ensures
        picked(
            Map::<int, Seq<char>>::empty().insert(Glsl::V1_20.rank(), glsl_120).insert(
                Glsl::V1_50.rank(),
                glsl_150,
            ),
            version.rank(),
        ) == selected(version, glsl_120, glsl_150),
{
    let entries = Map::<int, Seq<char>>::empty().insert(Glsl::V1_20.rank(), glsl_120).insert(
        Glsl::V1_50.rank(),
        glsl_150,
    );
    let registered = entries.dom();
    lemma_closest_is_greatest(registered, oldest_usable(version.rank()), version.rank());
    assert(registered.contains(Glsl::V1_20.rank()));
    assert(registered.contains(Glsl::V1_50.rank()));
    assert(forall|rank: int|
        registered.contains(rank) ==> rank == Glsl::V1_20.rank() || rank == Glsl::V1_50.rank());
}

/// [`closest`] finds the greatest registered rank between `low` and
/// `wanted`: its result is registered and in range, nothing registered lies
/// between it and `wanted`, and it is `None` exactly when nothing registered
/// is in range.
pub proof fn lemma_closest_is_greatest(registered: Set<int>, low: int, wanted: int)
    ensures
        (match closest(registered, low, wanted) {
            Some(rank) => {
                &&& registered.contains(rank)
                &&& low <= rank <= wanted
                &&& forall|other: int|
                    rank < other <= wanted ==> !registered.contains(other)
            },
            None => forall|other: int| low <= other <= wanted ==> !registered.contains(other),
        }),
    decreases wanted - low + 1,
{
    if wanted >= low && !registered.contains(wanted) {
        lemma_closest_is_greatest(registered, low, wanted - 1);
    }
}

/// A GPU with a core profile is never handed a variant older than GLSL 1.50,
/// and no GPU is handed a variant newer than the version it speaks.
pub proof fn lemma_pick_is_usable(registered: Set<int>, wanted: int)
    ensures
        closest(registered, oldest_usable(wanted), wanted) matches Some(rank) ==> rank <= wanted
            && (wanted >= Glsl::V1_50.rank() ==> rank >= Glsl::V1_50.rank()),
{
    lemma_closest_is_greatest(registered, oldest_usable(wanted), wanted);
}

} // verus!
