//! The helpers that every test file imports.

use vstd::prelude::*;

verus! {

/// The text of `helpers.dart`.
pub const HELPERS_DART: &'static str = "// GENERATED FILE - DO NOT EDIT\n\
    import 'dart:io';\n\
    import 'dart:typed_data';\n\
    \n\
    import 'package:flutter/material.dart';\n\
    import 'package:flutter_test/flutter_test.dart';\n\
    import 'package:path/path.dart' as p;\n\
    import 'package:screenshot/screenshot.dart';\n\
    import 'package:image/image.dart' as img;\n\
    import 'package:window_size/window_size.dart';\n\
    \n\
    const updateScreenshots = bool.fromEnvironment('UPDATE_SCREENSHOTS');\n\
    \n\
    /// Custom extensions for WidgetTester and Finders used by generated tests.\n\
    extension WidgetTesterExtensions on WidgetTester {\n\
    \x20 Future<void> setTestResolution({\n\
    \x20   Size size = const Size(1280, 800),\n\
    \x20   double ratio = 1.0,\n\
    \x20 }) async {\n\
    \x20   view.devicePixelRatio = ratio;\n\
    \x20   final screens = await getScreenList();\n\
    \x20   final screen = screens.first;\n\
    \x20   final x = screen.frame.left + (screen.frame.width - size.width) / 2;\n\
    \x20   final y = screen.frame.top + (screen.frame.height - size.height) / 2;\n\
    \x20   setWindowFrame(Rect.fromLTWH(x, y, size.width, size.height));\n\
    \x20   await pumpAndSettle();\n\
    \x20 }\n\
    \n\
    \x20 /// Pumps until a widget matching [finder] appears, or throws after [timeout].\n\
    \x20 Future<void> pumpUntilFound(\n\
    \x20   Finder finder, {\n\
    \x20   Duration timeout = const Duration(seconds: 5),\n\
    \x20   Duration step = const Duration(milliseconds: 100),\n\
    \x20 }) async {\n\
    \x20   final endTime = DateTime.now().add(timeout);\n\
    \x20   while (DateTime.now().isBefore(endTime)) {\n\
    \x20     await pump(step);\n\
    \x20     if (any(finder)) return;\n\
    \x20   }\n\
    \x20   throw Exception('Widget not found within ${timeout.inSeconds}s: $finder');\n\
    \x20 }\n\
    \n\
    \x20 /// Pumps until a widget matching [finder] disappears.\n\
    \x20 Future<void> pumpUntilGone(\n\
    \x20   Finder finder, {\n\
    \x20   Duration timeout = const Duration(seconds: 5),\n\
    \x20   Duration step = const Duration(milliseconds: 100),\n\
    \x20 }) async {\n\
    \x20   final endTime = DateTime.now().add(timeout);\n\
    \x20   while (DateTime.now().isBefore(endTime)) {\n\
    \x20     await pump(step);\n\
    \x20     if (!any(finder)) return;\n\
    \x20   }\n\
    \x20   throw Exception(\n\
    \x20     'Widget still visible after ${timeout.inSeconds}s: $finder',\n\
    \x20   );\n\
    \x20 }\n\
    \n\
    \x20 Future<void> pumpUntilProgressCompleted(\n\
    \x20   Finder finder, {\n\
    \x20   Duration timeout = const Duration(seconds: 10),\n\
    \x20   Duration step = const Duration(milliseconds: 100),\n\
    \x20 }) async {\n\
    \x20   var endTime = DateTime.now().add(timeout);\n\
    \x20   final lastValueByWidget = <Widget, double>{};\n\
    \x20   while (DateTime.now().isBefore(endTime)) {\n\
    \x20     await pump(step);\n\
    \x20     final progressWidgets = widgetList(finder);\n\
    \x20     if (progressWidgets.isEmpty) {\n\
    \x20       // No progress widget found, consider it completed\n\
    \x20       return;\n\
    \x20     }\n\
    \x20     bool allCompleted = true;\n\
    \x20     for (final widget in progressWidgets) {\n\
    \x20       if (widget is LinearProgressIndicator) {\n\
    \x20         final value = widget.value;\n\
    \n\
    \x20         if (value != null && value < 1.0) {\n\
    \x20           if (lastValueByWidget.containsKey(widget) &&\n\
    \x20               lastValueByWidget[widget]! != value) {\n\
    \x20             // Progress value changed, reset timeout\n\
    \x20             endTime = DateTime.now().add(timeout);\n\
    \x20           }\n\
    \n\
    \x20           allCompleted = false;\n\
    \x20           lastValueByWidget[widget] = value;\n\
    \x20           break;\n\
    \x20         }\n\
    \x20       } else if (widget is CircularProgressIndicator) {\n\
    \x20         final value = widget.value;\n\
    \n\
    \x20         if (value != null && value < 1.0) {\n\
    \x20           if (lastValueByWidget.containsKey(widget) &&\n\
    \x20               lastValueByWidget[widget]! != value) {\n\
    \x20             // Progress value changed, reset timeout\n\
    \x20             endTime = DateTime.now().add(timeout);\n\
    \x20           }\n\
    \n\
    \x20           allCompleted = false;\n\
    \x20           lastValueByWidget[widget] = value;\n\
    \x20           break;\n\
    \x20         }\n\
    \x20       } else {\n\
    \x20         throw Exception('Unsupported progress widget: ${widget.runtimeType}');\n\
    \x20       }\n\
    \x20     }\n\
    \x20     if (allCompleted) return;\n\
    \x20   }\n\
    \x20   throw Exception(\n\
    \x20     'Progress not completed within ${timeout.inSeconds}s: $finder',\n\
    \x20   );\n\
    \x20 }\n\
    \n\
    \x20   Future<void> compareScreenshot(\n\
    \x20   String folderName,\n\
    \x20   String name, {\n\
    \x20   bool update = false,\n\
    \x20 }) async {\n\
    \x20   // --- Paths ---\n\
    \x20   final String projectRoot = Directory.current.path;\n\
    \x20   final String folderPath = p.join(\n\
    \x20     projectRoot,\n\
    \x20     'integration_test',\n\
    \x20     'screenshots',\n\
    \x20     folderName,\n\
    \x20   );\n\
    \x20   final String imagePath = p.join(folderPath, '$name.png');\n\
    \n\
    \x20   // --- Capture current screen ---\n\
    \x20   final el = find.byWidgetPredicate((w) => w is Screenshot);\n\
    \x20   final widget = el.first.evaluate().first.widget as Screenshot;\n\
    \x20   final res = await widget.controller.capture(\n\
    \x20     delay: const Duration(milliseconds: 10),\n\
    \x20   );\n\
    \n\
    \x20   if (res == null) {\n\
    \x20     throw Exception('Failed to capture screenshot');\n\
    \x20   }\n\
    \n\
    \x20   final File imageFile = File(imagePath);\n\
    \x20   await Directory(folderPath).create(recursive: true);\n\
    \n\
    \x20   if (update || !await imageFile.exists() || updateScreenshots) {\n\
    \x20     // \u{2705} Update mode \u{2192} save new reference image\n\
    \x20     await imageFile.writeAsBytes(res);\n\
    \x20     debugPrint('Updated reference screenshot: $imagePath');\n\
    \x20   } else {\n\
    \x20     // \u{1f50d} Compare mode \u{2192} diff against existing\n\
    \x20     final Uint8List existingBytes = await imageFile.readAsBytes();\n\
    \n\
    \x20     final img.Image? oldImg = img.decodeImage(existingBytes);\n\
    \x20     final img.Image? newImg = img.decodeImage(res);\n\
    \n\
    \x20     if (oldImg == null || newImg == null) {\n\
    \x20       throw Exception('Failed to decode one of the images');\n\
    \x20     }\n\
    \n\
    \x20     // Make sure both have same dimensions\n\
    \x20     if (oldImg.width != newImg.width || oldImg.height != newImg.height) {\n\
    \x20       throw Exception('Screenshot sizes differ for $name');\n\
    \x20     }\n\
    \n\
    \x20     // Compute pixel-wise difference\n\
    \x20     int diffPixels = 0;\n\
    \x20     for (int y = 0; y < oldImg.height; y++) {\n\
    \x20       for (int x = 0; x < oldImg.width; x++) {\n\
    \x20         if (oldImg.getPixel(x, y) != newImg.getPixel(x, y)) {\n\
    \x20           diffPixels++;\n\
    \x20         }\n\
    \x20       }\n\
    \x20     }\n\
    \n\
    \x20     final totalPixels = oldImg.width * oldImg.height;\n\
    \x20     final diffRatio = diffPixels / totalPixels;\n\
    \n\
    \x20     // 0.3% threshold\n\
    \x20     if (diffRatio > 0.003) {\n\
    \x20       final String failedFolderPath = p.join(\n\
    \x20         projectRoot,\n\
    \x20         'integration_test',\n\
    \x20         'screenshots',\n\
    \x20         folderName,\n\
    \x20         'failed',\n\
    \x20       );\n\
    \x20       final String failedImagePath = p.join(failedFolderPath, '$name.png');\n\
    \n\
    \x20       final File failedImageFile = File(failedImagePath);\n\
    \x20       await Directory(failedFolderPath).create(recursive: true);\n\
    \x20       await failedImageFile.writeAsBytes(res);\n\
    \x20       debugPrint('Saved failed screenshot: $failedImagePath');\n\
    \n\
    \x20       throw Exception(\n\
    \x20         '''Screenshot comparison failed for $name, please update screenshots if the changes are expected.\n\
    \n\
    Please run the following command to update screenshots:\n\
    flutter test integration_test --dart-define=UPDATE_SCREENSHOTS=true''',\n\
    \x20       );\n\
    \x20     }\n\
    \x20   }\n\
    \x20 }\n\
    }\n\
    \n\
    extension FinderExtensions on CommonFinders {\n\
    \x20 /// Finds a [TextField] by its placeholder or label text.\n\
    \x20 Finder byPlaceholder(String placeholder) {\n\
    \x20   return byWidgetPredicate((w) {\n\
    \x20     if (w is TextField && w.decoration?.labelText == placeholder) return true;\n\
    \x20     return false;\n\
    \x20   }, description: 'TextField(labelText=\"$placeholder\")');\n\
    \x20 }\n\
    \n\
    \x20 /// Finds a widget by a [ValueKey] string or prefix.\n\
    \x20 Finder byKeyPrefix(String prefix) {\n\
    \x20   return byWidgetPredicate((w) {\n\
    \x20     final key = w.key;\n\
    \x20     if (key is ValueKey<String>) {\n\
    \x20       return key.value.startsWith(prefix);\n\
    \x20     }\n\
    \x20     return false;\n\
    \x20   }, description: 'Widget with ValueKey prefix \"$prefix\"');\n\
    \x20 }\n\
    }\n\
    ";

} // verus!
