//! Sources of the batch shader program.  The fragment source is
//! generated for the device's texture unit count: one switch case per
//! unit.  Both sources are pinned character for character.

use vstd::prelude::*;
use crate::helpers::strings::{dec_str, push_u32};
use vstd::string::StringExecFns;

verus! {

/// One switch case of the fragment shader: unit `i` samples its
/// texture and tints it with the vertex color.
pub open spec fn frag_case(i: nat) -> Seq<char> {
    "        case  "@ + dec_str(i) + ":
            texColor = texture2D(Textures["@ + dec_str(i)
        + "u], IN.TexCoord) * vec4(IN.TexColor.x, IN.TexColor.y, IN.TexColor.z, IN.TexColor.w);
            break;
"@
}

/// The switch cases for units `0 .. n`, in order.
pub open spec fn frag_cases(n: nat) -> Seq<char>
    decreases n,
{
    if n == 0 {
        Seq::empty()
    } else {
        frag_cases((n - 1) as nat) + frag_case((n - 1) as nat)
    }
}

/// The whole fragment source for a device with `max` texture units:
/// a sampler array of that size and one switch case per unit.
pub open spec fn frag_source(max: nat) -> Seq<char> {
    "
#version 330 core

precision mediump float;

uniform sampler2D Textures["@ + dec_str(max)
        + "];

in VS_OUTPUT {
    vec2 TexCoord;
    vec4 TexColor;
    float TexIndex;
} IN;

out vec4 Color;

void main() {
    int ttid = int(IN.TexIndex + 0.5);
    vec4 baseColor = vec4(IN.TexColor.x, IN.TexColor.y, IN.TexColor.z, IN.TexColor.w);
    vec4 texColor = baseColor;

    switch (ttid)
    {
"@ + frag_cases(max) + "        default:
            texColor = baseColor;
            break;
    }

    Color = texColor;
}"@
}

/// Generates the fragment source for a device with `max_textures`
/// texture units, character for character as `frag_source` states it.
pub fn create_fragment_source(max_textures: u32) -> (r: String)
    ensures
        r@ == frag_source(max_textures as nat),
{
    let mut s = String::new();
    s.append(
        "
#version 330 core

precision mediump float;

uniform sampler2D Textures[",
    );
    push_u32(&mut s, max_textures);
    s.append(
        "];

in VS_OUTPUT {
    vec2 TexCoord;
    vec4 TexColor;
    float TexIndex;
} IN;

out vec4 Color;

void main() {
    int ttid = int(IN.TexIndex + 0.5);
    vec4 baseColor = vec4(IN.TexColor.x, IN.TexColor.y, IN.TexColor.z, IN.TexColor.w);
    vec4 texColor = baseColor;

    switch (ttid)
    {
",
    );
    let ghost head = s@;
    let mut i: u32 = 0;
    while i < max_textures
        invariant
            i <= max_textures,
            s@ == head + frag_cases(i as nat),
        decreases max_textures - i,
    {
        s.append("        case  ");
        push_u32(&mut s, i);
        s.append(
            ":
            texColor = texture2D(Textures[",
        );
        push_u32(&mut s, i);
        s.append(
            "u], IN.TexCoord) * vec4(IN.TexColor.x, IN.TexColor.y, IN.TexColor.z, IN.TexColor.w);
            break;
",
        );
        i = i + 1;
        proof {
            assert(s@ =~= head + frag_cases(i as nat));
        }
    }
    s.append(
        "        default:
            texColor = baseColor;
            break;
    }

    Color = texColor;
}",
    );
    proof {
        assert(s@ =~= frag_source(max_textures as nat));
    }
    s
}

/// The vertex source: positions through the one MVP uniform, all other
/// attributes passed through to the fragment stage.
pub open spec fn vert_source() -> Seq<char> {
    "
#version 330 core

layout (location = 0) in vec3 Position;
layout (location = 1) in vec2 TexCoord;
layout (location = 2) in vec4 TexColor;
layout (location = 3) in float TexIndex;

// uniform mat4 TexCoordTransform;
uniform mat4 MVP;

out VS_OUTPUT {
    vec2 TexCoord;
    vec4 TexColor;
    float TexIndex;
} OUT;

void main() {
    gl_Position = MVP * vec4(Position, 1.0);

    OUT.TexColor = TexColor;
    OUT.TexIndex = TexIndex; //int(TexIndex -0.5);
    //OUT.TexCoord = vec2(TexCoordTransform * vec4(TexCoord, 1.0, 1.0));
    OUT.TexCoord = TexCoord;
}"@
}

/// Hands out the vertex source, character for character as
/// `vert_source` states it.
pub fn create_vertex_source() -> (r: String)
    ensures
        r@ == vert_source(),
{
    let src = "
#version 330 core

layout (location = 0) in vec3 Position;
layout (location = 1) in vec2 TexCoord;
layout (location = 2) in vec4 TexColor;
layout (location = 3) in float TexIndex;

// uniform mat4 TexCoordTransform;
uniform mat4 MVP;

out VS_OUTPUT {
    vec2 TexCoord;
    vec4 TexColor;
    float TexIndex;
} OUT;

void main() {
    gl_Position = MVP * vec4(Position, 1.0);

    OUT.TexColor = TexColor;
    OUT.TexIndex = TexIndex; //int(TexIndex -0.5);
    //OUT.TexCoord = vec2(TexCoordTransform * vec4(TexCoord, 1.0, 1.0));
    OUT.TexCoord = TexCoord;
}";
    src.to_owned()
}

} // verus!
