//! The rigid-body section reader.

use vstd::prelude::*;

use crate::cursor::ByteCursor;
use crate::display::{display_step, spec_display, DisplayFrameView};
use crate::error::{Error, ErrorView};
use crate::parse::{seq_views, spec_records};
use crate::reader::display::DisplayReader;
use crate::rigid_body::{
    rigid_body_step, spec_rigid_body, PhysicsMode, RigidBody, RigidBodyView, ShapeType,
};
use crate::settings::Settings;

verus! {

/// Decodes the rigid-body section.
pub struct RigidBodyReader {
    pub settings: Settings,
    pub count: i32,
    pub remaining: i32,
    pub cursor: ByteCursor,
    pub poison: bool,
}

impl RigidBodyReader {
    /// Consume the display reader, drain its unread records, and read
    /// the rigid-body section's four-byte signed count.
    #[verifier::loop_isolation(false)]
    #[verifier::rlimit(100)]
    pub fn new(q: DisplayReader) -> (r: Result<RigidBodyReader, Error>)
        requires
            !q.poison,
        ensures
            match crate::parse::spec_open_section(
                display_step(q.cursor.data@, q.settings),
                q.cursor.data@,
                q.cursor.pos as int,
                q.remaining as int,
            ) {
                Ok((c, p)) => r matches Ok(nr) && nr.settings == q.settings && nr.count == c
                    && nr.remaining == c && !nr.poison && nr.cursor.data == q.cursor.data
                    && nr.cursor.pos as int == p,
                Err(e) => r matches Err(er) && er@ == e,
            },
    {
        let mut q = q;
        let ghost d = q.cursor.data@;
        let ghost st = q.settings;
        let ghost step = display_step(d, st);
        let ghost pos0 = q.cursor.pos as int;
        let ghost rem0 = q.remaining as int;
        let ghost data0 = q.cursor.data;
        while q.remaining > 0
            invariant
                !q.poison,
                q.settings == st,
                q.cursor.data == data0,
                (match spec_records(step, q.cursor.pos as int, q.remaining as int) {
                    Ok((vs, p)) => spec_records(step, pos0, rem0) matches Ok((vs0, p0)) && p0
                        == p,
                    Err(e) => spec_records(step, pos0, rem0) == Err::<
                        (Seq<DisplayFrameView>, int),
                        ErrorView,
                    >(e),
                }),
            decreases q.remaining,
        {
            let ghost pos_it = q.cursor.pos as int;
            match q.next() {
                Ok(_) => {
                    proof {
                        assert(step(pos_it) == spec_display(d, pos_it, st));
                    }
                },
                Err(e) => {
                    proof {
                        assert(step(pos_it) == spec_display(d, pos_it, st));
                    }
                    return Err(e);
                },
            }
        }
        let mut cursor = q.cursor;
        let count = match cursor.read_i32() {
            Ok(c) => c,
            Err(e) => return Err(e),
        };
        Ok(RigidBodyReader { settings: q.settings, count, remaining: count, cursor, poison: false })
    }

    /// Decode one rigid-body record, or yield `None` once the section is
    /// exhausted. The first error poisons the reader.
    pub fn next(&mut self) -> (r: Result<Option<RigidBody>, Error>)
        requires
            !old(self).poison,
        ensures
            final(self).settings == old(self).settings,
            final(self).count == old(self).count,
            final(self).cursor.data == old(self).cursor.data,
            old(self).remaining <= 0 ==> r == Ok::<Option<RigidBody>, Error>(None) && *final(self)
                == *old(self),
            old(self).remaining > 0 ==> (match spec_rigid_body(
                old(self).cursor.data@,
                old(self).cursor.pos as int,
                old(self).settings,
            ) {
                Ok((v, p)) => r matches Ok(ov) && ov matches Some(x) && x@ == v
                    && final(self).cursor.pos as int == p
                    && final(self).remaining == old(self).remaining - 1
                    && !final(self).poison,
                Err(e) => r matches Err(er) && er@ == e && final(self).poison,
            }),
    {
        let r = self.next_impl();
        if r.is_err() {
            self.poison = true;
        }
        r
    }

    #[verifier::rlimit(100)]
    fn next_impl(&mut self) -> (r: Result<Option<RigidBody>, Error>)
        requires
            !old(self).poison,
        ensures
            final(self).settings == old(self).settings,
            final(self).count == old(self).count,
            final(self).cursor.data == old(self).cursor.data,
            final(self).poison == old(self).poison,
            old(self).remaining <= 0 ==> r == Ok::<Option<RigidBody>, Error>(None) && *final(self)
                == *old(self),
            old(self).remaining > 0 ==> (match spec_rigid_body(
                old(self).cursor.data@,
                old(self).cursor.pos as int,
                old(self).settings,
            ) {
                Ok((v, p)) => r matches Ok(ov) && ov matches Some(x) && x@ == v
                    && final(self).cursor.pos as int == p
                    && final(self).remaining == old(self).remaining - 1,
                Err(e) => r matches Err(er) && er@ == e,
            }),
    {
        proof {
            reveal(crate::rigid_body::spec_rigid_body);
        }
        if self.remaining <= 0 {
            return Ok(None);
        }
        self.remaining = self.remaining - 1;
        let local_name = match self.cursor.read_text(self.settings.text_encoding) {
            Ok(v) => v,
            Err(e) => return Err(e),
        };
        let universal_name = match self.cursor.read_text(self.settings.text_encoding) {
            Ok(v) => v,
            Err(e) => return Err(e),
        };
        let bone_index = match self.cursor.read_index_i32(self.settings.bone_index_size) {
            Ok(v) => v,
            Err(e) => return Err(e),
        };
        let group_id = match self.cursor.read_u8() {
            Ok(v) => v,
            Err(e) => return Err(e),
        };
        let non_collision_mask = match self.cursor.read_u16() {
            Ok(v) => v,
            Err(e) => return Err(e),
        };
        let sb = match self.cursor.read_u8() {
            Ok(v) => v,
            Err(e) => return Err(e),
        };
        let shape = match ShapeType::from_byte(sb) {
            Ok(v) => v,
            Err(e) => return Err(e),
        };
        let shape_size = match self.cursor.read_vec3() {
            Ok(v) => v,
            Err(e) => return Err(e),
        };
        let shape_position = match self.cursor.read_vec3() {
            Ok(v) => v,
            Err(e) => return Err(e),
        };
        let shape_rotation = match self.cursor.read_vec3() {
            Ok(v) => v,
            Err(e) => return Err(e),
        };
        let mass = match self.cursor.read_u32() {
            Ok(v) => v,
            Err(e) => return Err(e),
        };
        let move_attenuation = match self.cursor.read_u32() {
            Ok(v) => v,
            Err(e) => return Err(e),
        };
        let rotation_damping = match self.cursor.read_u32() {
            Ok(v) => v,
            Err(e) => return Err(e),
        };
        let repulsion = match self.cursor.read_u32() {
            Ok(v) => v,
            Err(e) => return Err(e),
        };
        let fiction = match self.cursor.read_u32() {
            Ok(v) => v,
            Err(e) => return Err(e),
        };
        let pb = match self.cursor.read_u8() {
            Ok(v) => v,
            Err(e) => return Err(e),
        };
        let physics_mode = match PhysicsMode::from_byte(pb) {
            Ok(v) => v,
            Err(e) => return Err(e),
        };
        Ok(
            Some(
                RigidBody {
                    local_name,
                    universal_name,
                    bone_index,
                    group_id,
                    non_collision_mask,
                    shape,
                    shape_size,
                    shape_position,
                    shape_rotation,
                    mass,
                    move_attenuation,
                    rotation_damping,
                    repulsion,
                    fiction,
                    physics_mode,
                },
            ),
        )
    }

    /// Decode all remaining rigid-body records into a vector, stopping at the
    /// section end or at the first error.
    #[verifier::loop_isolation(false)]
    #[verifier::rlimit(100)]
    pub fn iter(&mut self) -> (r: Result<Vec<RigidBody>, Error>)
        requires
            !old(self).poison,
        ensures
            final(self).settings == old(self).settings,
            final(self).count == old(self).count,
            final(self).cursor.data == old(self).cursor.data,
            match spec_records(
                rigid_body_step(old(self).cursor.data@, old(self).settings),
                old(self).cursor.pos as int,
                old(self).remaining as int,
            ) {
                Ok((vs, p)) => r matches Ok(v) && seq_views(v@) == vs && final(self).cursor.pos
                    as int == p && final(self).remaining <= 0 && !final(self).poison,
                Err(e) => r matches Err(er) && er@ == e && final(self).poison,
            },
    {
        let ghost self0 = *self;
        let ghost d = self.cursor.data@;
        let ghost step = rigid_body_step(d, self0.settings);
        let ghost pos0 = self.cursor.pos as int;
        let ghost rem0 = self.remaining as int;
        let mut out: Vec<RigidBody> = Vec::new();
        while self.remaining > 0
            invariant
                !self.poison,
                self.settings == self0.settings,
                self.count == self0.count,
                self.cursor.data == self0.cursor.data,
                (match spec_records(step, self.cursor.pos as int, self.remaining as int) {
                    Ok((vs, p)) => spec_records(step, pos0, rem0) == Ok::<
                        (Seq<RigidBodyView>, int),
                        ErrorView,
                    >((seq_views(out@) + vs, p)),
                    Err(e) => spec_records(step, pos0, rem0) == Err::<
                        (Seq<RigidBodyView>, int),
                        ErrorView,
                    >(e),
                }),
            decreases self.remaining,
        {
            let ghost pos_it = self.cursor.pos as int;
            let ghost out_pre = out@;
            match self.next() {
                Ok(Some(x)) => {
                    out.push(x);
                    proof {
                        assert(step(pos_it) == spec_rigid_body(d, pos_it, self0.settings));
                        assert(seq_views(out@) =~= seq_views(out_pre) + seq![out@.last()@]);
                        match spec_records(step, self.cursor.pos as int, self.remaining as int) {
                            Ok((vs2, p2)) => {
                                assert(seq_views(out_pre) + (seq![out@.last()@] + vs2)
                                    =~= seq_views(out@) + vs2);
                            },
                            Err(e2) => {},
                        }
                    }
                },
                Ok(None) => {
                    proof {
                        assert(false);
                    }
                },
                Err(e) => {
                    proof {
                        assert(step(pos_it) == spec_rigid_body(d, pos_it, self0.settings));
                    }
                    return Err(e);
                },
            }
        }
        proof {
            assert(seq_views(out@) + Seq::<RigidBodyView>::empty() =~= seq_views(out@));
        }
        Ok(out)
    }
}

} // verus!
