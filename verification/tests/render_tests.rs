use cipollino_client::render::{render_scene, DrawChild, DrawLayer, DrawOp, SceneObj, SceneView};
use std::collections::HashSet;

fn layer(id: u64, objs: &[SceneObj]) -> DrawChild {
    DrawChild::Layer(DrawLayer { id, frame: Some(objs.to_vec()) })
}

fn view(editor_view: bool, active_layer: u64, hidden: &[u64], hidden_objects: &[SceneObj]) -> SceneView {
    SceneView {
        editor_view,
        active_layer,
        hidden_layers: hidden.iter().copied().collect::<HashSet<u64>>(),
        hidden_objects: hidden_objects.to_vec(),
        fill_preview: false,
        stroke_preview: false,
    }
}

#[test]
fn bottom_layer_and_bottom_object_first() {
    let layers = vec![
        layer(1, &[SceneObj::Stroke(10), SceneObj::Fill(11)]),
        layer(2, &[SceneObj::Stroke(20)]),
    ];
    let ops = render_scene(&layers, &view(true, 0, &[], &[]));
    assert_eq!(
        ops,
        vec![
            DrawOp::Object(SceneObj::Stroke(20)),
            DrawOp::Object(SceneObj::Fill(11)),
            DrawOp::Object(SceneObj::Stroke(10)),
        ]
    );
}

#[test]
fn groups_are_drawn_through_and_audio_draws_nothing() {
    let layers = vec![
        layer(1, &[SceneObj::Stroke(10)]),
        DrawChild::LayerGroup(vec![layer(2, &[SceneObj::Stroke(20)]), layer(3, &[SceneObj::Stroke(30)])]),
        DrawChild::AudioLayer,
        layer(4, &[SceneObj::Stroke(40)]),
    ];
    let ops = render_scene(&layers, &view(false, 0, &[], &[]));
    assert_eq!(
        ops,
        vec![
            DrawOp::Object(SceneObj::Stroke(40)),
            DrawOp::Object(SceneObj::Stroke(30)),
            DrawOp::Object(SceneObj::Stroke(20)),
            DrawOp::Object(SceneObj::Stroke(10)),
        ]
    );
}

#[test]
fn hidden_layers_only_hide_in_the_editor() {
    let layers = vec![layer(1, &[SceneObj::Stroke(10)]), layer(2, &[SceneObj::Stroke(20)])];
    let editor = render_scene(&layers, &view(true, 0, &[2], &[]));
    assert_eq!(editor, vec![DrawOp::Object(SceneObj::Stroke(10))]);
    let export = render_scene(&layers, &view(false, 0, &[2], &[]));
    assert_eq!(export.len(), 2);
}

#[test]
fn hidden_objects_only_hide_in_the_editor() {
    let layers = vec![layer(1, &[SceneObj::Stroke(10), SceneObj::Fill(10)])];
    let editor = render_scene(&layers, &view(true, 0, &[], &[SceneObj::Stroke(10)]));
    assert_eq!(editor, vec![DrawOp::Object(SceneObj::Fill(10))]);
    let export = render_scene(&layers, &view(false, 0, &[], &[SceneObj::Stroke(10)]));
    assert_eq!(export.len(), 2);
}

#[test]
fn previews_wrap_the_active_layer() {
    let layers = vec![
        layer(1, &[SceneObj::Stroke(10)]),
        DrawChild::Layer(DrawLayer { id: 2, frame: None }),
    ];
    let mut v = view(true, 1, &[], &[]);
    v.fill_preview = true;
    v.stroke_preview = true;
    let ops = render_scene(&layers, &v);
    assert_eq!(
        ops,
        vec![DrawOp::FillPreview, DrawOp::Object(SceneObj::Stroke(10)), DrawOp::StrokePreview]
    );
    v.active_layer = 2;
    let ops = render_scene(&layers, &v);
    assert_eq!(
        ops,
        vec![DrawOp::FillPreview, DrawOp::StrokePreview, DrawOp::Object(SceneObj::Stroke(10))]
    );
    v.editor_view = false;
    let ops = render_scene(&layers, &v);
    assert_eq!(ops, vec![DrawOp::Object(SceneObj::Stroke(10))]);
}
