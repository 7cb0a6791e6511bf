//! The material section reader.

use vstd::prelude::*;

use crate::error::{Error, ErrorView};
use crate::material::{
    material_step, spec_material, spec_toon, EnvironmentBlendMode, Material, MaterialView, Toon,
};
use crate::parse::{seq_views, spec_records};
use crate::reader::texture::{texture_step, TextureReader};
use crate::settings::Settings;
use crate::text::spec_text;

verus! {

/// Decodes the material section.
pub struct MaterialReader {
    pub settings: Settings,
    pub count: i32,
    pub remaining: i32,
    pub cursor: crate::cursor::ByteCursor,
    pub poison: bool,
}

impl MaterialReader {
    /// Consume the texture reader, drain its unread records, and read the
    /// material section's four-byte signed count.
    #[verifier::loop_isolation(false)]
    #[verifier::rlimit(100)]
    pub fn new(t: TextureReader) -> (r: Result<MaterialReader, Error>)
        requires
            !t.poison,
        ensures
            match crate::parse::spec_open_section(
                texture_step(t.cursor.data@, t.settings.text_encoding),
                t.cursor.data@,
                t.cursor.pos as int,
                t.remaining as int,
            ) {
                Ok((c, p)) => r matches Ok(mr) && mr.settings == t.settings && mr.count == c
                    && mr.remaining == c && !mr.poison && mr.cursor.data == t.cursor.data
                    && mr.cursor.pos as int == p,
                Err(e) => r matches Err(er) && er@ == e,
            },
    {
        let mut t = t;
        let ghost d = t.cursor.data@;
        let ghost st = t.settings;
        let ghost step = texture_step(d, st.text_encoding);
        let ghost pos0 = t.cursor.pos as int;
        let ghost rem0 = t.remaining as int;
        let ghost data0 = t.cursor.data;
        while t.remaining > 0
            invariant
                !t.poison,
                t.settings == st,
                t.cursor.data == data0,
                (match spec_records(step, t.cursor.pos as int, t.remaining as int) {
                    Ok((vs, p)) => spec_records(step, pos0, rem0) matches Ok((vs0, p0)) && p0
                        == p,
                    Err(e) => spec_records(step, pos0, rem0) == Err::<
                        (Seq<Seq<char>>, int),
                        ErrorView,
                    >(e),
                }),
            decreases t.remaining,
        {
            let ghost pos_it = t.cursor.pos as int;
            match t.next() {
                Ok(_) => {
                    proof {
                        assert(step(pos_it) == spec_text(d, pos_it, st.text_encoding));
                    }
                },
                Err(e) => {
                    proof {
                        assert(step(pos_it) == spec_text(d, pos_it, st.text_encoding));
                    }
                    return Err(e);
                },
            }
        }
        let mut cursor = t.cursor;
        let count = match cursor.read_i32() {
            Ok(c) => c,
            Err(e) => return Err(e),
        };
        Ok(MaterialReader { settings: t.settings, count, remaining: count, cursor, poison: false })
    }

    /// Decode one material record, or yield `None` once the section is
    /// exhausted. The first error poisons the reader.
    pub fn next(&mut self) -> (r: Result<Option<Material>, Error>)
        requires
            !old(self).poison,
        ensures
            final(self).settings == old(self).settings,
            final(self).count == old(self).count,
            final(self).cursor.data == old(self).cursor.data,
            old(self).remaining <= 0 ==> r == Ok::<Option<Material>, Error>(None) && *final(self)
                == *old(self),
            old(self).remaining > 0 ==> (match spec_material(
                old(self).cursor.data@,
                old(self).cursor.pos as int,
                old(self).settings,
            ) {
                Ok((v, p)) => r matches Ok(ov) && ov matches Some(m) && m@ == v
                    && final(self).cursor.pos as int == p
                    && final(self).remaining == old(self).remaining - 1
                    && !final(self).poison,
                Err(e) => r matches Err(er) && er@ == e && final(self).poison,
            }),
    {
        let r = self.next_impl();
        if r.is_err() {
            self.poison = true;
        }
        r
    }

    #[verifier::rlimit(100)]
    fn next_impl(&mut self) -> (r: Result<Option<Material>, Error>)
        requires
            !old(self).poison,
        ensures
            final(self).settings == old(self).settings,
            final(self).count == old(self).count,
            final(self).cursor.data == old(self).cursor.data,
            final(self).poison == old(self).poison,
            old(self).remaining <= 0 ==> r == Ok::<Option<Material>, Error>(None) && *final(self)
                == *old(self),
            old(self).remaining > 0 ==> (match spec_material(
                old(self).cursor.data@,
                old(self).cursor.pos as int,
                old(self).settings,
            ) {
                Ok((v, p)) => r matches Ok(ov) && ov matches Some(m) && m@ == v
                    && final(self).cursor.pos as int == p
                    && final(self).remaining == old(self).remaining - 1,
                Err(e) => r matches Err(er) && er@ == e,
            }),
    {
        proof {
            reveal(crate::material::spec_material);
        }
        if self.remaining <= 0 {
            return Ok(None);
        }
        self.remaining = self.remaining - 1;
        let local_name = match self.cursor.read_text(self.settings.text_encoding) {
            Ok(v) => v,
            Err(e) => return Err(e),
        };
        let universal_name = match self.cursor.read_text(self.settings.text_encoding) {
            Ok(v) => v,
            Err(e) => return Err(e),
        };
        let diffuse_color = match self.cursor.read_vec4() {
            Ok(v) => v,
            Err(e) => return Err(e),
        };
        let specular_color = match self.cursor.read_vec3() {
            Ok(v) => v,
            Err(e) => return Err(e),
        };
        let specular_strength = match self.cursor.read_u32() {
            Ok(v) => v,
            Err(e) => return Err(e),
        };
        let ambient_color = match self.cursor.read_vec3() {
            Ok(v) => v,
            Err(e) => return Err(e),
        };
        let draw_flags = match self.cursor.read_u8() {
            Ok(v) => v,
            Err(e) => return Err(e),
        };
        let edge_color = match self.cursor.read_vec4() {
            Ok(v) => v,
            Err(e) => return Err(e),
        };
        let edge_scale = match self.cursor.read_u32() {
            Ok(v) => v,
            Err(e) => return Err(e),
        };
        let texture_index = match self.cursor.read_index_i32(self.settings.texture_index_size) {
            Ok(v) => v,
            Err(e) => return Err(e),
        };
        let environment_index = match self.cursor.read_index_i32(self.settings.texture_index_size)
            {
            Ok(v) => v,
            Err(e) => return Err(e),
        };
        let blend_byte = match self.cursor.read_u8() {
            Ok(v) => v,
            Err(e) => return Err(e),
        };
        let environment_blend_mode = match EnvironmentBlendMode::from_byte(blend_byte) {
            Ok(v) => v,
            Err(e) => return Err(e),
        };
        let toon_byte = match self.cursor.read_u8() {
            Ok(v) => v,
            Err(e) => return Err(e),
        };
        let toon = match toon_byte {
            0 => match self.cursor.read_index_i32(self.settings.texture_index_size) {
                Ok(v) => Toon::Texture(v),
                Err(e) => return Err(e),
            },
            1 => match self.cursor.read_u8() {
                Ok(v) => Toon::Internal(v),
                Err(e) => return Err(e),
            },
            e => return Err(Error::InvalidToonReference(e)),
        };
        let metadata = match self.cursor.read_text(self.settings.text_encoding) {
            Ok(v) => v,
            Err(e) => return Err(e),
        };
        let surface_count = match self.cursor.read_i32() {
            Ok(v) => v,
            Err(e) => return Err(e),
        };
        Ok(
            Some(
                Material {
                    local_name,
                    universal_name,
                    diffuse_color,
                    specular_color,
                    specular_strength,
                    ambient_color,
                    draw_flags,
                    edge_color,
                    edge_scale,
                    texture_index,
                    environment_index,
                    environment_blend_mode,
                    toon,
                    metadata,
                    surface_count,
                },
            ),
        )
    }

    /// Decode all remaining material records into a vector, stopping at
    /// the section end or at the first error.
    #[verifier::loop_isolation(false)]
    #[verifier::rlimit(100)]
    pub fn iter(&mut self) -> (r: Result<Vec<Material>, Error>)
        requires
            !old(self).poison,
        ensures
            final(self).settings == old(self).settings,
            final(self).count == old(self).count,
            final(self).cursor.data == old(self).cursor.data,
            match spec_records(
                material_step(old(self).cursor.data@, old(self).settings),
                old(self).cursor.pos as int,
                old(self).remaining as int,
            ) {
                Ok((vs, p)) => r matches Ok(v) && seq_views(v@) == vs && final(self).cursor.pos
                    as int == p && final(self).remaining <= 0 && !final(self).poison,
                Err(e) => r matches Err(er) && er@ == e && final(self).poison,
            },
    {
        let ghost self0 = *self;
        let ghost d = self.cursor.data@;
        let ghost step = material_step(d, self0.settings);
        let ghost pos0 = self.cursor.pos as int;
        let ghost rem0 = self.remaining as int;
        let mut out: Vec<Material> = Vec::new();
        while self.remaining > 0
            invariant
                !self.poison,
                self.settings == self0.settings,
                self.count == self0.count,
                self.cursor.data == self0.cursor.data,
                (match spec_records(step, self.cursor.pos as int, self.remaining as int) {
                    Ok((vs, p)) => spec_records(step, pos0, rem0) == Ok::<
                        (Seq<MaterialView>, int),
                        ErrorView,
                    >((seq_views(out@) + vs, p)),
                    Err(e) => spec_records(step, pos0, rem0) == Err::<
                        (Seq<MaterialView>, int),
                        ErrorView,
                    >(e),
                }),
            decreases self.remaining,
        {
            let ghost pos_it = self.cursor.pos as int;
            let ghost out_pre = out@;
            match self.next() {
                Ok(Some(m)) => {
                    out.push(m);
                    proof {
                        assert(step(pos_it) == spec_material(d, pos_it, self0.settings));
                        assert(seq_views(out@) =~= seq_views(out_pre) + seq![out@.last()@]);
                        match spec_records(step, self.cursor.pos as int, self.remaining as int) {
                            Ok((vs2, p2)) => {
                                assert(seq_views(out_pre) + (seq![out@.last()@] + vs2)
                                    =~= seq_views(out@) + vs2);
                            },
                            Err(e2) => {},
                        }
                    }
                },
                Ok(None) => {
                    proof {
                        assert(false);
                    }
                },
                Err(e) => {
                    proof {
                        assert(step(pos_it) == spec_material(d, pos_it, self0.settings));
                    }
                    return Err(e);
                },
            }
        }
        proof {
            assert(seq_views(out@) + Seq::<MaterialView>::empty() =~= seq_views(out@));
        }
        Ok(out)
    }
}

} // verus!
