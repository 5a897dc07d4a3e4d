use sierra::glsl::{include_generated, GlslType, GlslTypeContext, ShaderInputDecl};
use sierra::shader::{ShaderStage, ShaderStageFlags};

struct Light;

impl GlslType for Light {
    fn name() -> &'static str {
        "Light"
    }

    fn deps(ctx: &mut GlslTypeContext) {
        ctx.add::<u32, u32>();
    }

    fn def() -> String {
        "struct Light { uint kind; };".to_owned()
    }
}

struct Scene;

impl GlslType for Scene {
    fn name() -> &'static str {
        "Scene"
    }

    fn deps(ctx: &mut GlslTypeContext) {
        ctx.add::<Light, Light>();
        ctx.add::<[Light; 4], [Light; 4]>();
    }

    fn def() -> String {
        format!("struct Scene {{ {} lights{}; }};", <[Light; 4]>::name(), <[Light; 4]>::suffix())
    }
}

struct Inputs;

impl ShaderInputDecl for Inputs {
    fn glsl(stage: ShaderStage) -> String {
        format!("/*{:?}*/", stage)
    }
}

#[test]
fn include_generated_replaces_marker_lines() {
    let code = "#version 450\n#include \"sierra_generated.h\"\nvoid main() {}\n";
    assert_eq!(include_generated(code, "GEN"), "#version 450GENvoid main() {}");
}

#[test]
fn include_generated_line_endings() {
    assert_eq!(include_generated("a\r\nb\r\n", "X"), "ab");
    assert_eq!(include_generated("a\n\nb", "X"), "ab");
    assert_eq!(include_generated("", "X"), "");
    assert_eq!(include_generated("\n", "X"), "");
    assert_eq!(include_generated("#include \"sierra_generated.h\" // here\r\nx", "G"), "Gx");
    assert_eq!(include_generated(" #include \"sierra_generated.h\"", "G"), " #include \"sierra_generated.h\"");
    assert_eq!(include_generated("#include \"sierra_generated\"", "G"), "#include \"sierra_generated\"");
    assert_eq!(include_generated("é\n#include \"sierra_generated.h\"", "ü"), "éü");
}

#[test]
fn include_glsl_uses_stage_declarations() {
    let code = "#include \"sierra_generated.h\"\nmain";
    assert_eq!(Inputs::include_glsl(ShaderStage::Fragment, code), "/*Fragment*/main");
}

#[test]
fn glsl_context_adds_each_type_once() {
    let mut ctx = GlslTypeContext::new();
    ctx.add::<Scene, Scene>();
    ctx.add::<Light, Light>();
    ctx.add::<Scene, Scene>();
    assert_eq!(
        ctx.code(),
        "\n\nstruct Light { uint kind; };\n\nstruct Scene { Light lights[4]; };"
    );
}

#[test]
fn glsl_builtin_names() {
    assert_eq!(<i32 as GlslType>::name(), "int");
    assert_eq!(<u32 as GlslType>::name(), "uint");
    assert_eq!(<u16 as GlslType>::name(), "ushort");
    assert_eq!(<bool as GlslType>::name(), "bool");
    assert_eq!(<[u32] as GlslType>::suffix(), "[]");
    assert_eq!(<[i8; 12] as GlslType>::suffix(), "[12]");
    assert_eq!(<[i8; 0] as GlslType>::suffix(), "[0]");
    assert_eq!(<i16 as GlslType>::suffix(), "");
    assert_eq!(<[u16; 3] as GlslType>::name(), "ushort");
}

#[test]
fn shader_stage_bits() {
    assert_eq!(ShaderStage::Vertex.vk_bit(), 1);
    assert_eq!(ShaderStage::Compute.vk_bit(), 0x20);
    assert_eq!(ShaderStage::Intersection.vk_bit(), 0x1000);
    assert_eq!(ShaderStage::Miss.flag(), ShaderStageFlags::MISS());
}

fn splice_by_lines(code: &str, generated: &str) -> String {
    code.lines()
        .map(|line| {
            if line.starts_with("#include \"sierra_generated.h\"") {
                generated.to_owned()
            } else {
                line.to_owned()
            }
        })
        .collect()
}

#[test]
fn include_generated_agrees_with_str_lines() {
    let inputs = [
        "",
        "\n",
        "\r",
        "a\r",
        "\r\n",
        "a\r\r\n",
        "a\n\rb",
        "x\ny\r\nz",
        "#include \"sierra_generated.h\"",
        "#include \"sierra_generated.h\"\r",
        "#include \"sierra_generated.h\"\r\n#include \"sierra_generated.h\"\n\n",
        "é\r\n😀\n#include \"sierra_generated.h\"ä",
    ];
    for input in inputs {
        assert_eq!(include_generated(input, "<G>"), splice_by_lines(input, "<G>"), "{:?}", input);
    }
}

struct NeverAsked;

impl ShaderInputDecl for NeverAsked {
    fn glsl(_stage: ShaderStage) -> String {
        panic!("declarations asked for without an include line")
    }
}

#[test]
fn include_glsl_without_marker_asks_nothing() {
    let out = NeverAsked::include_glsl(ShaderStage::Vertex, "void main() {}\r\nint x;\n");
    assert_eq!(out, "void main() {}int x;");
}
